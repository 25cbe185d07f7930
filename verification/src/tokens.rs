//! Reference tokens: opaque strings that stand for a named thing until the
//! rendered text can carry the real declaration or reference.
//!
//! A token is made of the stem of its kind, the decimal scope id where the
//! kind is scoped, and the ending of its role.

use crate::text::{
    chars_of, count_digits, decimal, digit_run, has_at, is_digit, lemma_decimal,
    lemma_decimal_injective, lemma_digit_run, lemma_digit_run_exact, matches_at, push_decimal,
};
use vstd::prelude::*;
use vstd::string::*;

verus! {

/// What a token names.
#[derive(Clone, Copy, Debug, PartialEq, Eq, Structural)]
pub enum TokenKind {
    /// The client of one test case.
    Client,
    /// The database of one test case.
    Database,
    /// The collection of one test case.
    Collection,
    /// One thread.
    Thread,
    /// The topology description recorded in one test case.
    TopologyDescription,
    /// The client of the file that configures fail points.
    SetupClient,
    /// The `admin` database of the file.
    AdminDatabase,
    /// The name of the database of the file.
    DatabaseName,
    /// The name of the collection of the file.
    CollectionName,
}

/// Whether a token declares the name or refers to it.
#[derive(Clone, Copy, Debug, PartialEq, Eq, Structural)]
pub enum TokenRole {
    Definition,
    Deref,
}

/// Whether tokens of this kind carry a scope id.
pub open spec fn is_scoped(kind: TokenKind) -> bool {
    match kind {
        TokenKind::Client
        | TokenKind::Database
        | TokenKind::Collection
        | TokenKind::Thread
        | TokenKind::TopologyDescription => true,
        _ => false,
    }
}

/// The text that every token of a kind starts with.
pub open spec fn stem(kind: TokenKind) -> Seq<char> {
    match kind {
        TokenKind::Client => "xCLIENT_"@,
        TokenKind::Database => "xDATABASE_"@,
        TokenKind::Collection => "xCOLLECTION_"@,
        TokenKind::Thread => "THREAD_"@,
        TokenKind::TopologyDescription => "xTDESC_"@,
        TokenKind::SetupClient => "xSETUP_CLIENT"@,
        TokenKind::AdminDatabase => "xADMIN_DATABASE"@,
        TokenKind::DatabaseName => "xDATABASE_NAME"@,
        TokenKind::CollectionName => "xCOLLECTION_NAME"@,
    }
}

/// The text that every token of a role ends with.
pub open spec fn ending(role: TokenRole) -> Seq<char> {
    match role {
        TokenRole::Definition => "_DEFINITION_PLACEHOLDER"@,
        TokenRole::Deref => "_DEREF_PLACEHOLDER"@,
    }
}

/// The scope id as it stands in a token: its decimal numeral, or nothing for
/// a kind without scopes.
pub open spec fn scope_text(kind: TokenKind, scope: nat) -> Seq<char> {
    if is_scoped(kind) {
        decimal(scope)
    } else {
        Seq::empty()
    }
}

/// The token of a kind, a role and a scope id.
pub open spec fn token_text(kind: TokenKind, role: TokenRole, scope: nat) -> Seq<char> {
    stem(kind) + scope_text(kind, scope) + ending(role)
}

/// A token of the given kind and role starts at position `i` of `text`: the
/// stem, then (for a scoped kind) one or more digits, then the ending.
pub open spec fn token_shape_at(text: Seq<char>, i: int, kind: TokenKind, role: TokenRole) -> bool {
    let after_stem = i + stem(kind).len();
    &&& has_at(text, i, stem(kind))
    &&& if is_scoped(kind) {
        &&& digit_run(text, after_stem) >= 1
        &&& has_at(text, after_stem + digit_run(text, after_stem), ending(role))
    } else {
        has_at(text, after_stem, ending(role))
    }
}

/// No token of the given kind starts at position `i` of `text`.
pub open spec fn kind_absent(text: Seq<char>, i: int, kind: TokenKind) -> bool {
    &&& !token_shape_at(text, i, kind, TokenRole::Definition)
    &&& !token_shape_at(text, i, kind, TokenRole::Deref)
}

/// Some token starts at position `i` of `text`.
pub open spec fn token_at(text: Seq<char>, i: int) -> bool {
    exists|kind: TokenKind, role: TokenRole| token_shape_at(text, i, kind, role)
}

/// Some token occurs in `text`.
pub open spec fn has_token(text: Seq<char>) -> bool {
    exists|i: int| 0 <= i < text.len() && token_at(text, i)
}

/// The lengths of the stems and the characters that tell them apart.
proof fn lemma_stem_marks(text: Seq<char>, i: int, kind: TokenKind)
    requires
        has_at(text, i, stem(kind)),
    ensures
        match kind {
            TokenKind::Client => stem(kind).len() == 8 && text[i] == 'x' && text[i + 1] == 'C'
                && text[i + 2] == 'L',
            TokenKind::Database => stem(kind).len() == 10 && text[i] == 'x' && text[i + 1]
                == 'D',
            TokenKind::Collection => stem(kind).len() == 12 && text[i] == 'x' && text[i + 1]
                == 'C' && text[i + 2] == 'O',
            TokenKind::Thread => stem(kind).len() == 7 && text[i] == 'T',
            TokenKind::TopologyDescription => stem(kind).len() == 7 && text[i] == 'x' && text[i
                + 1] == 'T',
            TokenKind::SetupClient => stem(kind).len() == 13 && text[i] == 'x' && text[i + 1]
                == 'S',
            TokenKind::AdminDatabase => stem(kind).len() == 15 && text[i] == 'x' && text[i + 1]
                == 'A',
            TokenKind::DatabaseName => stem(kind).len() == 14 && text[i] == 'x' && text[i + 1]
                == 'D' && text[i + 10] == 'N',
            TokenKind::CollectionName => stem(kind).len() == 16 && text[i] == 'x' && text[i + 1]
                == 'C' && text[i + 2] == 'O' && text[i + 12] == 'N',
        },
{
    reveal_strlit("xCLIENT_");
    reveal_strlit("xDATABASE_");
    reveal_strlit("xCOLLECTION_");
    reveal_strlit("THREAD_");
    reveal_strlit("xTDESC_");
    reveal_strlit("xSETUP_CLIENT");
    reveal_strlit("xADMIN_DATABASE");
    reveal_strlit("xDATABASE_NAME");
    reveal_strlit("xCOLLECTION_NAME");
    let p = stem(kind);
    assert(text[i + 0] == p[0]);
    assert(text[i + 1] == p[1]);
    assert(text[i + 2] == p[2]);
    if p.len() > 12 {
        assert(text[i + 10] == p[10]);
        assert(text[i + 12] == p[12]);
    }
}

/// The lengths of the endings and the characters that tell them apart.
proof fn lemma_ending_marks(text: Seq<char>, i: int, role: TokenRole)
    requires
        has_at(text, i, ending(role)),
    ensures
        text[i] == '_',
        match role {
            TokenRole::Definition => ending(role).len() == 23 && text[i + 3] == 'F',
            TokenRole::Deref => ending(role).len() == 18 && text[i + 3] == 'R',
        },
{
    reveal_strlit("_DEFINITION_PLACEHOLDER");
    reveal_strlit("_DEREF_PLACEHOLDER");
    let p = ending(role);
    assert(text[i + 0] == p[0]);
    assert(text[i + 3] == p[3]);
}

/// At one position at most one kind and role of token can start: no token is
/// the beginning of a token of another kind or role.
pub proof fn lemma_shapes_exclusive(
    text: Seq<char>,
    i: int,
    kind1: TokenKind,
    role1: TokenRole,
    kind2: TokenKind,
    role2: TokenRole,
)
    requires
        token_shape_at(text, i, kind1, role1),
        token_shape_at(text, i, kind2, role2),
    ensures
        kind1 == kind2,
        role1 == role2,
{
    lemma_stem_marks(text, i, kind1);
    lemma_stem_marks(text, i, kind2);
    let after1 = i + stem(kind1).len();
    let after2 = i + stem(kind2).len();
    if is_scoped(kind1) {
        lemma_digit_run(text, after1);
    } else {
        lemma_ending_marks(text, after1, role1);
    }
    if is_scoped(kind2) {
        lemma_digit_run(text, after2);
    } else {
        lemma_ending_marks(text, after2, role2);
    }
    let end = if is_scoped(kind1) {
        after1 + digit_run(text, after1)
    } else {
        after1
    };
    lemma_ending_marks(text, end, role1);
    lemma_ending_marks(text, end, role2);
}

/// The parts of a token stand where its text puts them.
pub proof fn lemma_token_parts(kind: TokenKind, role: TokenRole, scope: nat)
    ensures
        has_at(token_text(kind, role, scope), 0, stem(kind)),
        has_at(
            token_text(kind, role, scope),
            (stem(kind).len() + scope_text(kind, scope).len()) as int,
            ending(role),
        ),
        is_scoped(kind) ==> digit_run(token_text(kind, role, scope), stem(kind).len() as int)
            == decimal(scope).len() && decimal(scope).len() >= 1,
        token_text(kind, role, scope).len() == stem(kind).len() + scope_text(kind, scope).len()
            + ending(role).len(),
        scope_text(kind, scope) == token_text(kind, role, scope).subrange(
            stem(kind).len() as int,
            (stem(kind).len() + scope_text(kind, scope).len()) as int,
        ),
{
    let t = token_text(kind, role, scope);
    let a = stem(kind);
    let b = scope_text(kind, scope);
    if is_scoped(kind) {
        lemma_decimal(scope);
        reveal_strlit("_DEFINITION_PLACEHOLDER");
        reveal_strlit("_DEREF_PLACEHOLDER");
        assert forall|j: int| a.len() <= j < a.len() + b.len() implies is_digit(
            #[trigger] t[j],
        ) by {
            assert(t[j] == b[j - a.len()]);
        }
        lemma_digit_run_exact(t, a.len() as int, b.len());
    }
}

/// Every generated token has the shape of its kind and role.
pub proof fn lemma_token_has_shape(kind: TokenKind, role: TokenRole, scope: nat)
    ensures
        token_shape_at(token_text(kind, role, scope), 0, kind, role),
        has_token(token_text(kind, role, scope)),
{
    lemma_token_parts(kind, role, scope);
    let t = token_text(kind, role, scope);
    reveal_strlit("_DEFINITION_PLACEHOLDER");
    reveal_strlit("_DEREF_PLACEHOLDER");
    assert(token_shape_at(t, 0, kind, role));
    assert(token_at(t, 0));
}

/// The generator is injective: equal tokens have the same kind and role, and,
/// where the kind is scoped, the same scope id.
pub proof fn lemma_tokens_injective(
    kind1: TokenKind,
    role1: TokenRole,
    scope1: nat,
    kind2: TokenKind,
    role2: TokenRole,
    scope2: nat,
)
    requires
        token_text(kind1, role1, scope1) == token_text(kind2, role2, scope2),
    ensures
        kind1 == kind2,
        role1 == role2,
        is_scoped(kind1) ==> scope1 == scope2,
{
    lemma_token_has_shape(kind1, role1, scope1);
    lemma_token_has_shape(kind2, role2, scope2);
    lemma_shapes_exclusive(token_text(kind1, role1, scope1), 0, kind1, role1, kind2, role2);
    lemma_token_parts(kind1, role1, scope1);
    lemma_token_parts(kind2, role2, scope2);
    if is_scoped(kind1) {
        lemma_decimal_injective(scope1, scope2);
    }
}

/// The stem of a kind.
pub fn stem_of(kind: TokenKind) -> (r: &'static str)
    ensures
        r@ == stem(kind),
{
    match kind {
        TokenKind::Client => "xCLIENT_",
        TokenKind::Database => "xDATABASE_",
        TokenKind::Collection => "xCOLLECTION_",
        TokenKind::Thread => "THREAD_",
        TokenKind::TopologyDescription => "xTDESC_",
        TokenKind::SetupClient => "xSETUP_CLIENT",
        TokenKind::AdminDatabase => "xADMIN_DATABASE",
        TokenKind::DatabaseName => "xDATABASE_NAME",
        TokenKind::CollectionName => "xCOLLECTION_NAME",
    }
}

/// The ending of a role.
pub fn ending_of(role: TokenRole) -> (r: &'static str)
    ensures
        r@ == ending(role),
{
    match role {
        TokenRole::Definition => "_DEFINITION_PLACEHOLDER",
        TokenRole::Deref => "_DEREF_PLACEHOLDER",
    }
}

/// Whether tokens of this kind carry a scope id.
pub fn scoped(kind: TokenKind) -> (r: bool)
    ensures
        r == is_scoped(kind),
{
    match kind {
        TokenKind::Client
        | TokenKind::Database
        | TokenKind::Collection
        | TokenKind::Thread
        | TokenKind::TopologyDescription => true,
        _ => false,
    }
}

/// The token of a kind, a role and a scope id. The scope id of a kind
/// without scopes is not used.
pub fn reference_token(kind: TokenKind, role: TokenRole, scope: usize) -> (r: String)
    ensures
        r@ == token_text(kind, role, scope as nat),
{
    let mut out = stem_of(kind).to_owned();
    if scoped(kind) {
        push_decimal(&mut out, scope);
    }
    out.append(ending_of(role));
    out
}

/// The token that declares a name.
pub fn definition_token(kind: TokenKind, scope: usize) -> (r: String)
    ensures
        r@ == token_text(kind, TokenRole::Definition, scope as nat),
{
    reference_token(kind, TokenRole::Definition, scope)
}

/// The token that refers to a declared name.
pub fn deref_token(kind: TokenKind, scope: usize) -> (r: String)
    ensures
        r@ == token_text(kind, TokenRole::Deref, scope as nat),
{
    reference_token(kind, TokenRole::Deref, scope)
}

/// The token that declares thread `i`.
pub fn thread_definition_placeholder(i: usize) -> (r: String)
    ensures
        r@ == token_text(TokenKind::Thread, TokenRole::Definition, i as nat),
        r@ == "THREAD_"@ + decimal(i as nat) + "_DEFINITION_PLACEHOLDER"@,
{
    reference_token(TokenKind::Thread, TokenRole::Definition, i)
}

/// The token that refers to thread `i`.
pub fn thread_deref_placeholder(i: usize) -> (r: String)
    ensures
        r@ == token_text(TokenKind::Thread, TokenRole::Deref, i as nat),
        r@ == "THREAD_"@ + decimal(i as nat) + "_DEREF_PLACEHOLDER"@,
{
    reference_token(TokenKind::Thread, TokenRole::Deref, i)
}

/// The role of the token of the given kind that starts at position `i`, if
/// one does.
pub fn role_at(text: &Vec<char>, i: usize, kind: TokenKind) -> (r: Option<TokenRole>)
    ensures
        forall|role: TokenRole| token_shape_at(text@, i as int, kind, role) <==> r == Some(role),
{
    let stem_chars = chars_of(stem_of(kind));
    if !matches_at(text, i, &stem_chars) {
        return None;
    }
    assert(i + stem_chars.len() <= text.len());
    let after_stem = i + stem_chars.len();
    let mut end = after_stem;
    if scoped(kind) {
        let digits = count_digits(text, after_stem);
        if digits == 0 {
            return None;
        }
        end = after_stem + digits;
    }
    let definition = chars_of(ending_of(TokenRole::Definition));
    let deref = chars_of(ending_of(TokenRole::Deref));
    if matches_at(text, end, &definition) {
        proof {
            assert forall|role: TokenRole| token_shape_at(text@, i as int, kind, role) implies role
                == TokenRole::Definition by {
                lemma_shapes_exclusive(text@, i as int, kind, role, kind, TokenRole::Definition);
            }
        }
        Some(TokenRole::Definition)
    } else if matches_at(text, end, &deref) {
        proof {
            assert forall|role: TokenRole| token_shape_at(text@, i as int, kind, role) implies role
                == TokenRole::Deref by {
                lemma_shapes_exclusive(text@, i as int, kind, role, kind, TokenRole::Deref);
            }
        }
        Some(TokenRole::Deref)
    } else {
        proof {
            assert forall|role: TokenRole| !token_shape_at(text@, i as int, kind, role) by {
                match role {
                    TokenRole::Definition => {},
                    TokenRole::Deref => {},
                }
            }
        }
        None
    }
}

/// Whether some token starts at position `i`.
pub fn starts_token(text: &Vec<char>, i: usize) -> (r: bool)
    ensures
        r == token_at(text@, i as int),
{
    let kinds = [
        TokenKind::Client,
        TokenKind::Database,
        TokenKind::Collection,
        TokenKind::Thread,
        TokenKind::TopologyDescription,
        TokenKind::SetupClient,
        TokenKind::AdminDatabase,
        TokenKind::DatabaseName,
        TokenKind::CollectionName,
    ];
    let mut k: usize = 0;
    while k < 9
        invariant
            k <= 9,
            kinds@.len() == 9,
            kinds@[0] == TokenKind::Client,
            kinds@[1] == TokenKind::Database,
            kinds@[2] == TokenKind::Collection,
            kinds@[3] == TokenKind::Thread,
            kinds@[4] == TokenKind::TopologyDescription,
            kinds@[5] == TokenKind::SetupClient,
            kinds@[6] == TokenKind::AdminDatabase,
            kinds@[7] == TokenKind::DatabaseName,
            kinds@[8] == TokenKind::CollectionName,
            forall|j: int| 0 <= j < k ==> kind_absent(text@, i as int, #[trigger] kinds@[j]),
        decreases 9 - k,
    {
        match role_at(text, i, kinds[k]) {
            Some(role) => {
                assert(token_shape_at(text@, i as int, kinds@[k as int], role));
                return true;
            },
            None => {},
        }
        k += 1;
    }
    proof {
        assert forall|kind: TokenKind, role: TokenRole| !token_shape_at(
            text@,
            i as int,
            kind,
            role,
        ) by {
            let j: int = match kind {
                TokenKind::Client => 0,
                TokenKind::Database => 1,
                TokenKind::Collection => 2,
                TokenKind::Thread => 3,
                TokenKind::TopologyDescription => 4,
                TokenKind::SetupClient => 5,
                TokenKind::AdminDatabase => 6,
                TokenKind::DatabaseName => 7,
                TokenKind::CollectionName => 8,
            };
            assert(kind_absent(text@, i as int, kinds@[j]));
        }
    }
    false
}

/// Whether some token occurs in the text.
pub fn find_token(text: &Vec<char>) -> (r: bool)
    ensures
        r == has_token(text@),
{
    let mut i: usize = 0;
    while i < text.len()
        invariant
            i <= text.len(),
            forall|k: int| 0 <= k < i ==> !token_at(text@, k),
        decreases text.len() - i,
    {
        if starts_token(text, i) {
            return true;
        }
        i += 1;
    }
    false
}

/// Whether some token occurs in the string.
pub fn contains_token(s: &str) -> (r: bool)
    ensures
        r == has_token(s@),
{
    let text = chars_of(s);
    find_token(&text)
}

} // verus!
