//! The pass over the rendered text that turns every reference token into a
//! declaration (`&name value`) or a reference (`*name`).
//!
//! Each kind and role of token has one rewriting rule: a pattern that matches
//! the tokens of that kind and role, and the text that replaces a match. The
//! rules are applied to the whole text one after the other, by the `regex`
//! crate. A text that still holds a token afterwards is refused.

use crate::text::{
    chars_of, decimal, is_digit, lemma_decimal, lemma_decimal_injective, same_text,
};
use crate::tokens::{
    ending, ending_of, find_token, has_token, is_scoped, scope_text, scoped, stem, stem_of,
    TokenKind, TokenRole,
};
use regex::Regex;
use vstd::prelude::*;
use vstd::string::*;

verus! {

/// Why a rendered text cannot be resolved.
#[derive(Clone, Copy, Debug, PartialEq, Eq, Structural)]
pub enum ResolveError {
    /// The pattern of a rule was refused as a regular expression.
    InvalidRule,
    /// A reference token is left after every rule was applied.
    UnresolvedToken,
}

/// One rewriting rule: a pattern, and the text that replaces each match.
#[derive(Debug, PartialEq)]
pub struct Rule {
    pub pattern: String,
    pub replacement: String,
}

/// The mathematical value of a [`Rule`].
pub struct RuleView {
    pub pattern: Seq<char>,
    pub replacement: Seq<char>,
}

impl DeepView for Rule {
    type V = RuleView;

    open spec fn deep_view(&self) -> RuleView {
        RuleView { pattern: self.pattern@, replacement: self.replacement@ }
    }
}

/// What `Regex::new(pattern)` followed by `replace_all(haystack, replacement)`
/// gives: `None` where the pattern is refused, else the rewritten text.
pub uninterp spec fn regex_replaced(
    pattern: Seq<char>,
    haystack: Seq<char>,
    replacement: Seq<char>,
) -> Option<Seq<char>>;

/// The name under which the thing of a kind is declared and referred to,
/// without its scope id.
pub open spec fn anchor(kind: TokenKind) -> Seq<char> {
    match kind {
        TokenKind::Client => "client"@,
        TokenKind::Database => "database"@,
        TokenKind::Collection => "collection"@,
        TokenKind::Thread => "thread"@,
        TokenKind::TopologyDescription => "topologyDescription"@,
        TokenKind::SetupClient => "setupClient"@,
        TokenKind::AdminDatabase => "adminDatabase"@,
        TokenKind::DatabaseName => "databaseName"@,
        TokenKind::CollectionName => "collectionName"@,
    }
}

/// The part of a pattern that captures the scope id.
pub open spec fn scope_capture(kind: TokenKind) -> Seq<char> {
    if is_scoped(kind) {
        "([0-9]+)"@
    } else {
        Seq::empty()
    }
}

/// The part of a replacement that stands for the captured scope id.
pub open spec fn scope_reference(kind: TokenKind) -> Seq<char> {
    if is_scoped(kind) {
        "${1}"@
    } else {
        Seq::empty()
    }
}

/// The pattern that matches the tokens of a kind and role.
pub open spec fn pattern_of(kind: TokenKind, role: TokenRole) -> Seq<char> {
    stem(kind) + scope_capture(kind) + ending(role)
}

/// The name of the database that converted files use.
pub open spec fn database_name() -> Seq<char> {
    "sdam-tests"@
}

/// A text as it has to stand in a replacement to be inserted literally: each
/// `$` doubled.
pub open spec fn escaped(s: Seq<char>) -> Seq<char>
    decreases s.len(),
{
    if s.len() == 0 {
        Seq::empty()
    } else if s.last() == '$' {
        escaped(s.drop_last()) + "$$"@
    } else {
        escaped(s.drop_last()).push(s.last())
    }
}

/// The name that a declaration binds and a reference reads, as it stands in
/// a replacement: the anchor of the kind, then the scope id.
pub open spec fn rendered_name(kind: TokenKind) -> Seq<char> {
    anchor(kind) + scope_reference(kind)
}

/// The value that a declaration binds to its name: the name itself for an
/// entity, the fixed database name, or the collection name of the file.
pub open spec fn declared_value(kind: TokenKind, collection_name: Seq<char>) -> Seq<char> {
    match kind {
        TokenKind::DatabaseName => database_name(),
        TokenKind::CollectionName => escaped(collection_name),
        _ => rendered_name(kind),
    }
}

/// The text that replaces a token of a kind and role.
pub open spec fn replacement_of(
    kind: TokenKind,
    role: TokenRole,
    collection_name: Seq<char>,
) -> Seq<char> {
    match role {
        TokenRole::Definition => "&"@ + rendered_name(kind) + " "@ + declared_value(
            kind,
            collection_name,
        ),
        TokenRole::Deref => "*"@ + rendered_name(kind),
    }
}

/// The rule for the tokens of a kind and role.
pub open spec fn rule_of(kind: TokenKind, role: TokenRole, collection_name: Seq<char>) -> RuleView {
    RuleView {
        pattern: pattern_of(kind, role),
        replacement: replacement_of(kind, role, collection_name),
    }
}

/// The kinds and roles in the order in which their rules are applied. The
/// rule that supplies the collection name of the file comes last.
pub open spec fn rule_order() -> Seq<(TokenKind, TokenRole)> {
    seq![
        (TokenKind::Client, TokenRole::Definition),
        (TokenKind::Client, TokenRole::Deref),
        (TokenKind::Database, TokenRole::Definition),
        (TokenKind::Database, TokenRole::Deref),
        (TokenKind::DatabaseName, TokenRole::Definition),
        (TokenKind::DatabaseName, TokenRole::Deref),
        (TokenKind::Collection, TokenRole::Definition),
        (TokenKind::Collection, TokenRole::Deref),
        (TokenKind::CollectionName, TokenRole::Deref),
        (TokenKind::SetupClient, TokenRole::Definition),
        (TokenKind::SetupClient, TokenRole::Deref),
        (TokenKind::AdminDatabase, TokenRole::Definition),
        (TokenKind::AdminDatabase, TokenRole::Deref),
        (TokenKind::Thread, TokenRole::Definition),
        (TokenKind::Thread, TokenRole::Deref),
        (TokenKind::TopologyDescription, TokenRole::Definition),
        (TokenKind::TopologyDescription, TokenRole::Deref),
        (TokenKind::CollectionName, TokenRole::Definition),
    ]
}

/// The table of rules for a file with the given collection name.
pub open spec fn rule_table(collection_name: Seq<char>) -> Seq<RuleView> {
    Seq::new(
        rule_order().len(),
        |i: int| rule_of(rule_order()[i].0, rule_order()[i].1, collection_name),
    )
}

/// The text after the first `n` rules were applied in order, each once to
/// the whole text; `None` where the pattern of one of them is refused.
pub open spec fn rewritten(text: Seq<char>, rules: Seq<RuleView>, n: nat) -> Option<Seq<char>>
    decreases n,
{
    if n == 0 || n > rules.len() {
        Some(text)
    } else {
        match rewritten(text, rules, (n - 1) as nat) {
            None => None,
            Some(before) => regex_replaced(
                rules[n - 1].pattern,
                before,
                rules[n - 1].replacement,
            ),
        }
    }
}

/// What is returned for a text after every rule was applied: the text, where
/// no token is left in it.
pub open spec fn checked(text: Seq<char>) -> Result<Seq<char>, ResolveError> {
    if has_token(text) {
        Err(ResolveError::UnresolvedToken)
    } else {
        Ok(text)
    }
}

/// The resolved form of a rendered text: the text itself where it holds no
/// token, else the text after every rule was applied, where no token is left
/// in it.
pub open spec fn resolution(raw: Seq<char>, collection_name: Seq<char>) -> Result<
    Seq<char>,
    ResolveError,
> {
    if !has_token(raw) {
        Ok(raw)
    } else {
        let rules = rule_table(collection_name);
        match rewritten(raw, rules, rules.len()) {
            None => Err(ResolveError::InvalidRule),
            Some(text) => checked(text),
        }
    }
}

/// A resolved text holds no reference token.
pub proof fn lemma_resolution_complete(raw: Seq<char>, collection_name: Seq<char>)
    ensures
        resolution(raw, collection_name) matches Ok(text) ==> !has_token(text),
{
}

/// Resolving a resolved text again changes nothing, whatever the collection
/// name.
pub proof fn lemma_resolution_idempotent(
    raw: Seq<char>,
    collection_name: Seq<char>,
    other_name: Seq<char>,
)
    ensures
        resolution(raw, collection_name) matches Ok(text) ==> resolution(text, other_name) == Ok::<
            Seq<char>,
            ResolveError,
        >(text),
{
}

/// The declaration and the references of one kind use the same name: a
/// definition token becomes `&name value`, a dereference token `*name`.
pub proof fn lemma_same_name(kind: TokenKind, collection_name: Seq<char>)
    ensures
        replacement_of(kind, TokenRole::Definition, collection_name) == "&"@ + rendered_name(kind)
            + " "@ + declared_value(kind, collection_name),
        replacement_of(kind, TokenRole::Deref, collection_name) == "*"@ + rendered_name(kind),
        is_scoped(kind) ==> declared_value(kind, collection_name) == rendered_name(kind),
{
}

/// The name that the rules are written to give to the thing of a kind and
/// scope id: the anchor of the kind, then the scope id where the kind has
/// one.
pub open spec fn declared_name(kind: TokenKind, scope: nat) -> Seq<char> {
    anchor(kind) + scope_text(kind, scope)
}

/// The characters that tell the names of the kinds apart.
proof fn lemma_name_marks(kind: TokenKind, scope: nat)
    ensures
        ({
            let name = declared_name(kind, scope);
            match kind {
                TokenKind::Client => name[0] == 'c' && name[1] == 'l',
                TokenKind::Database => name[0] == 'd' && name.len() > 8 && is_digit(name[8]),
                TokenKind::Collection => name[0] == 'c' && name[1] == 'o' && name.len() > 10
                    && is_digit(name[10]),
                TokenKind::Thread => name[0] == 't' && name[1] == 'h',
                TokenKind::TopologyDescription => name[0] == 't' && name[1] == 'o',
                TokenKind::SetupClient => name[0] == 's',
                TokenKind::AdminDatabase => name[0] == 'a',
                TokenKind::DatabaseName => name[0] == 'd' && name.len() == 12 && name[8] == 'N',
                TokenKind::CollectionName => name[0] == 'c' && name[1] == 'o' && name.len() == 14
                    && name[10] == 'N',
            }
        }),
        is_scoped(kind) ==> declared_name(kind, scope).subrange(
            anchor(kind).len() as int,
            declared_name(kind, scope).len() as int,
        ) == decimal(scope),
{
    reveal_strlit("client");
    reveal_strlit("database");
    reveal_strlit("collection");
    reveal_strlit("thread");
    reveal_strlit("topologyDescription");
    reveal_strlit("setupClient");
    reveal_strlit("adminDatabase");
    reveal_strlit("databaseName");
    reveal_strlit("collectionName");
    let a = anchor(kind);
    let name = declared_name(kind, scope);
    assert(name[0] == a[0]);
    assert(name[1] == a[1]);
    if is_scoped(kind) {
        lemma_decimal(scope);
        let digits = decimal(scope);
        assert(name[a.len() as int] == digits[0]);
        assert(is_digit(digits[0]));
        assert(name.subrange(a.len() as int, name.len() as int) =~= digits);
    } else {
        assert(name =~= a);
        if a.len() > 10 {
            assert(name[8] == a[8]);
            assert(name[10] == a[10]);
        }
    }
}

/// Things of different kinds, and things of one kind with different scope
/// ids, have different names: the entities of two test cases and two threads
/// are never declared under one name.
pub proof fn lemma_names_differ(kind1: TokenKind, scope1: nat, kind2: TokenKind, scope2: nat)
    requires
        declared_name(kind1, scope1) == declared_name(kind2, scope2),
    ensures
        kind1 == kind2,
        is_scoped(kind1) ==> scope1 == scope2,
{
    lemma_name_marks(kind1, scope1);
    lemma_name_marks(kind2, scope2);
    if is_scoped(kind1) {
        lemma_decimal_injective(scope1, scope2);
    }
}

/// Every kind and role of token has a rule in the table.
pub proof fn lemma_every_token_has_rule(
    kind: TokenKind,
    role: TokenRole,
    collection_name: Seq<char>,
)
    ensures
        exists|i: int|
            0 <= i < rule_table(collection_name).len() && #[trigger] rule_table(
                collection_name,
            )[i] == rule_of(kind, role, collection_name),
{
    let table = rule_table(collection_name);
    let i: int = match (kind, role) {
        (TokenKind::Client, TokenRole::Definition) => 0,
        (TokenKind::Client, TokenRole::Deref) => 1,
        (TokenKind::Database, TokenRole::Definition) => 2,
        (TokenKind::Database, TokenRole::Deref) => 3,
        (TokenKind::DatabaseName, TokenRole::Definition) => 4,
        (TokenKind::DatabaseName, TokenRole::Deref) => 5,
        (TokenKind::Collection, TokenRole::Definition) => 6,
        (TokenKind::Collection, TokenRole::Deref) => 7,
        (TokenKind::CollectionName, TokenRole::Deref) => 8,
        (TokenKind::SetupClient, TokenRole::Definition) => 9,
        (TokenKind::SetupClient, TokenRole::Deref) => 10,
        (TokenKind::AdminDatabase, TokenRole::Definition) => 11,
        (TokenKind::AdminDatabase, TokenRole::Deref) => 12,
        (TokenKind::Thread, TokenRole::Definition) => 13,
        (TokenKind::Thread, TokenRole::Deref) => 14,
        (TokenKind::TopologyDescription, TokenRole::Definition) => 15,
        (TokenKind::TopologyDescription, TokenRole::Deref) => 16,
        (TokenKind::CollectionName, TokenRole::Definition) => 17,
    };
    assert(table[i] == rule_of(kind, role, collection_name));
}

/// Compiles `pattern` with `Regex::new` and rewrites `haystack` with
/// `Regex::replace_all`. Nothing is claimed of the result but that it is a
/// function of the three texts; `None` stands for a pattern that `Regex::new`
/// refuses.
#[verifier::external_body]
fn replace_all(pattern: &str, haystack: &str, replacement: &str) -> (r: Option<String>)
    ensures
        r.deep_view() == regex_replaced(pattern@, haystack@, replacement@),
{
    match Regex::new(pattern) {
        Ok(re) => Some(re.replace_all(haystack, replacement).into_owned()),
        Err(_) => None,
    }
}

/// The name under which the thing of a kind is declared and referred to.
pub fn anchor_of(kind: TokenKind) -> (r: &'static str)
    ensures
        r@ == anchor(kind),
{
    match kind {
        TokenKind::Client => "client",
        TokenKind::Database => "database",
        TokenKind::Collection => "collection",
        TokenKind::Thread => "thread",
        TokenKind::TopologyDescription => "topologyDescription",
        TokenKind::SetupClient => "setupClient",
        TokenKind::AdminDatabase => "adminDatabase",
        TokenKind::DatabaseName => "databaseName",
        TokenKind::CollectionName => "collectionName",
    }
}

/// A text with each `$` doubled.
pub fn escape(s: &str) -> (r: String)
    ensures
        r@ == escaped(s@),
{
    let mut out = String::new();
    let n = s.unicode_len();
    let mut i: usize = 0;
    while i < n
        invariant
            i <= n,
            n == s@.len(),
            out@ == escaped(s@.take(i as int)),
        decreases n - i,
    {
        let piece = s.substring_char(i, i + 1);
        let ghost upto = s@.take(i + 1);
        proof {
            reveal_strlit("$");
            reveal_strlit("$$");
            assert(upto.drop_last() =~= s@.take(i as int));
            assert(piece@ == "$"@ <==> s@[i as int] == '$') by {
                if piece@ == "$"@ {
                    assert(piece@[0] == "$"@[0]);
                } else if s@[i as int] == '$' {
                    assert(piece@ =~= "$"@);
                }
            }
        }
        if same_text(piece, "$") {
            out.append("$$");
        } else {
            out.append(piece);
        }
        i += 1;
    }
    assert(s@.take(n as int) =~= s@);
    out
}

/// The rule for the tokens of a kind and role.
pub fn make_rule(kind: TokenKind, role: TokenRole, collection_name: &str) -> (r: Rule)
    ensures
        r.deep_view() == rule_of(kind, role, collection_name@),
{
    let mut pattern = stem_of(kind).to_owned();
    if scoped(kind) {
        pattern.append("([0-9]+)");
    }
    pattern.append(ending_of(role));

    let mut name = anchor_of(kind).to_owned();
    if scoped(kind) {
        name.append("${1}");
    }
    let replacement = match role {
        TokenRole::Definition => {
            let mut text = "&".to_owned();
            text.append(name.as_str());
            text.append(" ");
            match kind {
                TokenKind::DatabaseName => {
                    text.append("sdam-tests");
                },
                TokenKind::CollectionName => {
                    text.append(escape(collection_name).as_str());
                },
                _ => {
                    text.append(name.as_str());
                },
            }
            text
        },
        TokenRole::Deref => {
            let mut text = "*".to_owned();
            text.append(name.as_str());
            text
        },
    };
    Rule { pattern, replacement }
}

/// The table of rules for a file with the given collection name.
pub fn rules(collection_name: &str) -> (r: Vec<Rule>)
    ensures
        r.deep_view() == rule_table(collection_name@),
{
    let order = [
        (TokenKind::Client, TokenRole::Definition),
        (TokenKind::Client, TokenRole::Deref),
        (TokenKind::Database, TokenRole::Definition),
        (TokenKind::Database, TokenRole::Deref),
        (TokenKind::DatabaseName, TokenRole::Definition),
        (TokenKind::DatabaseName, TokenRole::Deref),
        (TokenKind::Collection, TokenRole::Definition),
        (TokenKind::Collection, TokenRole::Deref),
        (TokenKind::CollectionName, TokenRole::Deref),
        (TokenKind::SetupClient, TokenRole::Definition),
        (TokenKind::SetupClient, TokenRole::Deref),
        (TokenKind::AdminDatabase, TokenRole::Definition),
        (TokenKind::AdminDatabase, TokenRole::Deref),
        (TokenKind::Thread, TokenRole::Definition),
        (TokenKind::Thread, TokenRole::Deref),
        (TokenKind::TopologyDescription, TokenRole::Definition),
        (TokenKind::TopologyDescription, TokenRole::Deref),
        (TokenKind::CollectionName, TokenRole::Definition),
    ];
    let mut table: Vec<Rule> = Vec::new();
    let mut i: usize = 0;
    while i < 18
        invariant
            i <= 18,
            order@ == rule_order(),
            table.len() == i,
            forall|k: int|
                0 <= k < i ==> (#[trigger] table@[k]).deep_view() == rule_of(
                    rule_order()[k].0,
                    rule_order()[k].1,
                    collection_name@,
                ),
        decreases 18 - i,
    {
        let entry = order[i];
        table.push(make_rule(entry.0, entry.1, collection_name));
        i += 1;
    }
    table
}

/// Hands a text through where no reference token is left in it.
pub fn check_resolved(text: String) -> (r: Result<String, ResolveError>)
    ensures
        match r {
            Ok(same) => same@ == text@ && !has_token(text@),
            Err(e) => e == ResolveError::UnresolvedToken && has_token(text@),
        },
{
    if find_token(&chars_of(text.as_str())) {
        Err(ResolveError::UnresolvedToken)
    } else {
        Ok(text)
    }
}

/// Applies every rule of the table once to the whole text, in the order of
/// the table.
pub fn apply_rules(text: &str, table: &Vec<Rule>) -> (r: Result<String, ResolveError>)
    ensures
        match r {
            Ok(after) => rewritten(text@, table.deep_view(), table.deep_view().len()) == Some(
                after@,
            ),
            Err(e) => e == ResolveError::InvalidRule && rewritten(
                text@,
                table.deep_view(),
                table.deep_view().len(),
            ) is None,
        },
{
    let mut current = text.to_owned();
    let mut i: usize = 0;
    while i < table.len()
        invariant
            i <= table.len(),
            rewritten(text@, table.deep_view(), i as nat) == Some(current@),
        decreases table.len() - i,
    {
        let rule = &table[i];
        match replace_all(rule.pattern.as_str(), current.as_str(), rule.replacement.as_str()) {
            Some(next) => {
                current = next;
            },
            None => {
                proof {
                    lemma_rewritten_refused(
                        text@,
                        table.deep_view(),
                        (i + 1) as nat,
                        table.deep_view().len(),
                    );
                }
                return Err(ResolveError::InvalidRule);
            },
        }
        i += 1;
    }
    Ok(current)
}

/// Resolves the reference tokens of a rendered text: every definition token
/// becomes a declaration and every dereference token a reference by the same
/// name. A text without tokens is returned as it is.
pub fn resolve(raw: &str, collection_name: &str) -> (r: Result<String, ResolveError>)
    ensures
        match r {
            Ok(text) => resolution(raw@, collection_name@) == Ok::<Seq<char>, ResolveError>(text@),
            Err(e) => resolution(raw@, collection_name@) == Err::<Seq<char>, ResolveError>(e),
        },
{
    if !find_token(&chars_of(raw)) {
        return Ok(raw.to_owned());
    }
    let table = rules(collection_name);
    match apply_rules(raw, &table) {
        Ok(text) => check_resolved(text),
        Err(e) => Err(e),
    }
}

/// Once a pattern was refused, no later rule brings a text back.
pub proof fn lemma_rewritten_refused(text: Seq<char>, rules: Seq<RuleView>, n: nat, m: nat)
    requires
        n <= m <= rules.len(),
        rewritten(text, rules, n) is None,
    ensures
        rewritten(text, rules, m) is None,
    decreases m,
{
    if n < m {
        lemma_rewritten_refused(text, rules, n, (m - 1) as nat);
    }
}

} // verus!
