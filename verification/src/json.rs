//! Reading the JSON documents of the voice list and of the Gemini models
//! listing into plain values, with `serde_json`.

use vstd::prelude::*;

verus! {

/// `serde_json::Error`, the reason a document could not be parsed.
#[verifier::external_type_specification]
#[verifier::external_body]
pub struct ExJsonError(serde_json::Error);

/// One model of a Gemini models listing: its `name` when that is a string,
/// and its `supportedGenerationMethods` when that is an array (each method
/// when it is a string).
#[derive(Debug)]
pub struct GeminiModelEntry {
    pub name: Option<String>,
    pub methods: Option<Vec<Option<String>>>,
}

/// A Gemini models response: its `error.message` when that is a string, and
/// its `models` when that is an array.
#[derive(Debug)]
pub struct GeminiModelsDocument {
    pub error_message: Option<String>,
    pub models: Option<Vec<GeminiModelEntry>>,
}

/// An optional string as characters.
pub open spec fn opt_view(s: Option<String>) -> Option<Seq<char>> {
    match s {
        Some(x) => Some(x@),
        None => None,
    }
}

/// A list of optional strings as characters.
pub open spec fn opt_strings_view(v: Seq<Option<String>>) -> Seq<Option<Seq<char>>> {
    v.map_values(|x: Option<String>| opt_view(x))
}

/// A model entry as plain values.
pub open spec fn model_entry_view(e: GeminiModelEntry) -> (Option<Seq<char>>, Option<Seq<Option<Seq<char>>>>) {
    (
        opt_view(e.name),
        match e.methods {
            Some(m) => Some(opt_strings_view(m@)),
            None => None,
        },
    )
}

/// A Gemini models response as plain values.
pub open spec fn gemini_document_view(d: GeminiModelsDocument) -> (
    Option<Seq<char>>,
    Option<Seq<(Option<Seq<char>>, Option<Seq<Option<Seq<char>>>>)>>,
) {
    (
        opt_view(d.error_message),
        match d.models {
            Some(m) => Some(m@.map_values(|e: GeminiModelEntry| model_entry_view(e))),
            None => None,
        },
    )
}

/// What `serde_json` reads from the text of a Gemini models response, as
/// `gemini_document_view` gives it; `None` when the text is not JSON.
pub uninterp spec fn gemini_models_json(body: Seq<char>) -> Option<
    (Option<Seq<char>>, Option<Seq<(Option<Seq<char>>, Option<Seq<Option<Seq<char>>>>)>>),
>;

/// Parses a Gemini models response with `serde_json::from_str` and keeps the
/// fields that the dialog reads. Claims only that the outcome is the named
/// reading `gemini_models_json` of the text.
#[verifier::external_body]
pub(crate) fn parse_gemini_models_document(body: &str) -> (r: Result<GeminiModelsDocument, serde_json::Error>)
    ensures
        r is Ok <==> gemini_models_json(body@) is Some,
        r matches Ok(doc) ==> gemini_models_json(body@) == Some(gemini_document_view(doc)),
{
    let value: serde_json::Value = serde_json::from_str(body)?;
    let strings = |ms: &Vec<serde_json::Value>| ms.iter().map(|x| x.as_str().map(str::to_owned)).collect();
    let entry = |m: &serde_json::Value| GeminiModelEntry {
        name: m["name"].as_str().map(str::to_owned),
        methods: m["supportedGenerationMethods"].as_array().map(strings),
    };
    Ok(GeminiModelsDocument {
        error_message: value["error"]["message"].as_str().map(str::to_owned),
        models: value["models"].as_array().map(|list| list.iter().map(entry).collect()),
    })
}

/// One voice of the voice list: its `ShortName` and `Locale` when they are strings.
pub open spec fn voice_entry_view(e: (Option<String>, Option<String>)) -> (Option<Seq<char>>, Option<Seq<char>>) {
    (opt_view(e.0), opt_view(e.1))
}

/// What `serde_json` reads from the text of the voice list: `Some(None)` when
/// the document is not an array; `None` when the text is not JSON.
pub uninterp spec fn voice_list_json(body: Seq<char>) -> Option<Option<Seq<(Option<Seq<char>>, Option<Seq<char>>)>>>;

/// Parses the voice list with `serde_json::from_str` and keeps each voice's
/// `ShortName` and `Locale`. Claims only that the outcome is the named
/// reading `voice_list_json` of the text.
#[verifier::external_body]
pub(crate) fn parse_voice_list_document(body: &str) -> (r: Result<Option<Vec<(Option<String>, Option<String>)>>, serde_json::Error>)
    ensures
        r is Ok <==> voice_list_json(body@) is Some,
        r matches Ok(list) ==> voice_list_json(body@) == Some(
            match list {
                Some(v) => Some(v@.map_values(|e: (Option<String>, Option<String>)| voice_entry_view(e))),
                None => None,
            },
        ),
{
    let value: serde_json::Value = serde_json::from_str(body)?;
    let pick = |v: &serde_json::Value| (v["ShortName"].as_str().map(str::to_owned), v["Locale"].as_str().map(str::to_owned));
    Ok(value.as_array().map(|list| list.iter().map(pick).collect()))
}

} // verus!
