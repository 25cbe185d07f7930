//! The whole conversion, from a legacy test file to the text of the unified
//! test file, around a renderer that the caller supplies.

use crate::convert::{convert, converted};
use crate::crud_v2::TestFile;
use crate::encode::test_file_doc;
use crate::resolver::{resolution, resolve, ResolveError};
use crate::tokens::has_token;
use crate::translate::ConvertError;
use crate::value::Document;
use vstd::prelude::*;

verus! {

/// Why a legacy test file has no unified text.
#[derive(Clone, Copy, Debug, PartialEq, Eq, Structural)]
pub enum ConversionError {
    /// The file cannot be converted.
    Convert(ConvertError),
    /// The renderer gave no text for the converted file.
    Render,
    /// The rendered text cannot be resolved.
    Resolve(ResolveError),
}

/// The outcome of a conversion for what the renderer gave: the resolved form
/// of the rendered text, or the reason why there is none.
pub open spec fn finished(rendered: Option<Seq<char>>, collection_name: Seq<char>) -> Result<
    Seq<char>,
    ConversionError,
> {
    match rendered {
        None => Err(ConversionError::Render),
        Some(raw) => match resolution(raw, collection_name) {
            Ok(text) => Ok(text),
            Err(e) => Err(ConversionError::Resolve(e)),
        },
    }
}

/// Converts a legacy test file into the text of the unified test file of the
/// given name: the file is converted, its document is rendered by `render`,
/// and the rendered text is resolved with the collection name of the file.
/// A text that is returned holds no reference token. Where the file cannot
/// be converted, `render` is not called.
pub fn convert_to_text<F: Fn(&Document) -> Option<String>>(
    file_name: &str,
    old: TestFile,
    render: F,
) -> (r: Result<String, ConversionError>)
    requires
        forall|doc: &Document| call_requires(render, (doc,)),
    ensures
        r matches Ok(text) ==> !has_token(text@),
        match converted(file_name@, old.deep_view()) {
            Err(e) => r == Err::<String, ConversionError>(ConversionError::Convert(e)),
            Ok(file) => exists|doc: Document, rendered: Option<String>|
                {
                    &&& doc@ == test_file_doc(file)
                    &&& #[trigger] call_ensures(render, (&doc,), rendered)
                    &&& match r {
                        Ok(text) => finished(rendered.deep_view(), old.collection_name@) == Ok::<
                            Seq<char>,
                            ConversionError,
                        >(text@),
                        Err(e) => finished(rendered.deep_view(), old.collection_name@) == Err::<
                            Seq<char>,
                            ConversionError,
                        >(e),
                    }
                },
        },
{
    let collection_name = old.collection_name.clone();
    let file = match convert(file_name, old) {
        Ok(file) => file,
        Err(e) => {
            return Err(ConversionError::Convert(e));
        },
    };
    let doc = file.to_document();
    match render(&doc) {
        None => Err(ConversionError::Render),
        Some(raw) => match resolve(raw.as_str(), collection_name.as_str()) {
            Ok(text) => Ok(text),
            Err(e) => Err(ConversionError::Resolve(e)),
        },
    }
}

} // verus!
