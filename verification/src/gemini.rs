//! The Gemini model choice: how model identifiers are shown in the model list,
//! and which models of the service's listing the dialog offers.

use vstd::prelude::*;

use crate::json::{
    gemini_document_view, gemini_models_json, opt_strings_view, opt_view, parse_gemini_models_document,
    GeminiModelEntry, GeminiModelsDocument,
};
use crate::order::{insert_sorted_unique, string_views, strictly_sorted};
use crate::text::{
    concat_str, decimal_spec, decimal_string, eq_ignore_ascii_case, first_match_ignoring_case, replace_spec, replace_str,
    starts_with_spec, starts_with_str, str_equals, trim, trim_spec,
};

verus! {

/// The model identifier of the default model, "latest Gemini Flash".
pub const DEFAULT_GEMINI_MODEL: &'static str = "gemini-flash-latest";
/// The model identifier of "latest Gemini Flash-Lite".
pub const GEMINI_FLASH_LITE_LATEST_MODEL: &'static str = "gemini-flash-lite-latest";
/// How the default model is shown.
pub const GEMINI_FLASH_LATEST_LABEL: &'static str = "Gemini Flash (latest)";
/// How the Flash-Lite model is shown.
pub const GEMINI_FLASH_LITE_LATEST_LABEL: &'static str = "Gemini Flash-Lite (latest)";

/// How a model identifier is shown: the two "latest" aliases by a friendly
/// name, any other identifier trimmed.
pub open spec fn display_label_spec(model: Seq<char>) -> Seq<char> {
    let t = trim_spec(model);
    if t == DEFAULT_GEMINI_MODEL@ {
        GEMINI_FLASH_LATEST_LABEL@
    } else if t == GEMINI_FLASH_LITE_LATEST_MODEL@ {
        GEMINI_FLASH_LITE_LATEST_LABEL@
    } else {
        t
    }
}

/// The model identifier of an entry of the model list: the friendly names
/// back to their aliases, any other text trimmed.
pub open spec fn model_id_spec(text: Seq<char>) -> Seq<char> {
    let t = trim_spec(text);
    if t == GEMINI_FLASH_LATEST_LABEL@ {
        DEFAULT_GEMINI_MODEL@
    } else if t == GEMINI_FLASH_LITE_LATEST_LABEL@ {
        GEMINI_FLASH_LITE_LATEST_MODEL@
    } else {
        t
    }
}

/// How the model `model` is shown in the model list.
pub fn gemini_model_display_label(model: &str) -> (label: String)
    ensures
        label@ == display_label_spec(model@),
{
    let t = trim(model);
    if str_equals(t.as_str(), DEFAULT_GEMINI_MODEL) {
        GEMINI_FLASH_LATEST_LABEL.to_owned()
    } else if str_equals(t.as_str(), GEMINI_FLASH_LITE_LATEST_MODEL) {
        GEMINI_FLASH_LITE_LATEST_LABEL.to_owned()
    } else {
        t
    }
}

/// The model identifier of the model-list entry `text`.
pub fn gemini_model_id_from_combo_text(text: &str) -> (id: String)
    ensures
        id@ == model_id_spec(text@),
{
    let t = trim(text);
    if str_equals(t.as_str(), GEMINI_FLASH_LATEST_LABEL) {
        DEFAULT_GEMINI_MODEL.to_owned()
    } else if str_equals(t.as_str(), GEMINI_FLASH_LITE_LATEST_LABEL) {
        GEMINI_FLASH_LITE_LATEST_MODEL.to_owned()
    } else {
        t
    }
}

/// Reading back the shown name of a model gives the model, trimmed; this
/// fails only for an identifier that is itself one of the friendly names.
pub proof fn lemma_model_label_round_trip(model: Seq<char>)
    requires
        trim_spec(model) != GEMINI_FLASH_LATEST_LABEL@,
        trim_spec(model) != GEMINI_FLASH_LITE_LATEST_LABEL@,
    ensures
        model_id_spec(display_label_spec(model)) == trim_spec(model),
{
    reveal_strlit("gemini-flash-latest");
    reveal_strlit("gemini-flash-lite-latest");
    reveal_strlit("Gemini Flash (latest)");
    reveal_strlit("Gemini Flash-Lite (latest)");
    let t = trim_spec(model);
    lemma_trim_idempotent(model);
    let l = display_label_spec(model);
    if t == DEFAULT_GEMINI_MODEL@ {
        lemma_trim_fixed(GEMINI_FLASH_LATEST_LABEL@);
    } else if t == GEMINI_FLASH_LITE_LATEST_MODEL@ {
        lemma_trim_fixed(GEMINI_FLASH_LITE_LATEST_LABEL@);
    }
}

/// A string without white space at either end is its own trim.
proof fn lemma_trim_fixed(s: Seq<char>)
    requires
        s.len() > 0,
        !crate::text::is_whitespace_spec(s[0]),
        !crate::text::is_whitespace_spec(s.last()),
    ensures
        trim_spec(s) == s,
{
}

/// Trimming twice is trimming once.
pub proof fn lemma_trim_idempotent(s: Seq<char>)
    ensures
        trim_spec(trim_spec(s)) == trim_spec(s),
{
    lemma_trim_start_result(s);
    let a = crate::text::trim_start_spec(s);
    lemma_trim_end_result(a);
    let b = crate::text::trim_end_spec(a);
    lemma_trim_end_keeps_start(a);
    if b.len() > 0 {
        assert(b[0] == a[0]);
    }
}

/// After trimming the start, the first character is not white space.
proof fn lemma_trim_start_result(s: Seq<char>)
    ensures
        crate::text::trim_start_spec(s).len() > 0 ==> !crate::text::is_whitespace_spec(crate::text::trim_start_spec(s)[0]),
    decreases s.len(),
{
    if s.len() > 0 && crate::text::is_whitespace_spec(s[0]) {
        lemma_trim_start_result(s.drop_first());
    }
}

/// After trimming the end, the last character is not white space.
proof fn lemma_trim_end_result(s: Seq<char>)
    ensures
        crate::text::trim_end_spec(s).len() > 0 ==> !crate::text::is_whitespace_spec(crate::text::trim_end_spec(s).last()),
    decreases s.len(),
{
    if s.len() > 0 && crate::text::is_whitespace_spec(s.last()) {
        lemma_trim_end_result(s.drop_last());
    }
}

/// Trimming the end keeps the beginning.
proof fn lemma_trim_end_keeps_start(s: Seq<char>)
    ensures
        crate::text::trim_end_spec(s).len() <= s.len(),
        crate::text::trim_end_spec(s) == s.subrange(0, crate::text::trim_end_spec(s).len() as int),
    decreases s.len(),
{
    if s.len() > 0 && crate::text::is_whitespace_spec(s.last()) {
        lemma_trim_end_keeps_start(s.drop_last());
        assert(s.drop_last().subrange(0, crate::text::trim_end_spec(s).len() as int) =~= s.subrange(
            0,
            crate::text::trim_end_spec(s).len() as int,
        ));
    } else {
        assert(s.subrange(0, s.len() as int) =~= s);
    }
}

/// The key to send with a models request: the trimmed key, or the error
/// "Gemini API key is empty" when it is blank.
pub fn gemini_api_key_for_request(api_key: &str) -> (r: Result<String, String>)
    ensures
        trim_spec(api_key@).len() == 0 ==> (r matches Err(e) && e@ == "Gemini API key is empty"@),
        trim_spec(api_key@).len() > 0 ==> (r matches Ok(k) && k@ == trim_spec(api_key@)),
{
    let t = trim(api_key);
    if t.as_str().is_empty() {
        Err("Gemini API key is empty".to_owned())
    } else {
        Ok(t)
    }
}

/// `HTTP <status>: <message>`, or `HTTP <status>` without a message.
pub open spec fn api_error_spec(status: u16, message: Option<Seq<char>>) -> Seq<char> {
    match message {
        Some(m) => "HTTP "@ + decimal_spec(status as nat) + ": "@ + m,
        None => "HTTP "@ + decimal_spec(status as nat),
    }
}

/// The error shown for a failed models request.
pub fn gemini_api_error(status: u16, message: Option<&str>) -> (r: String)
    ensures
        r@ == api_error_spec(status, match message {
            Some(m) => Some(m@),
            None => None,
        }),
{
    let head = concat_str("HTTP ", decimal_string(status as usize).as_str());
    match message {
        Some(m) => {
            let with_colon = concat_str(head.as_str(), ": ");
            let r = concat_str(with_colon.as_str(), m);
            proof {
                assert(r@ =~= "HTTP "@ + decimal_spec(status as nat) + ": "@ + m@);
            }
            r
        },
        None => head,
    }
}

/// Whether a model entry offers `generateContent`.
pub open spec fn supports_generate_content(methods: Option<Seq<Option<Seq<char>>>>) -> bool {
    match methods {
        Some(ms) => exists|i: int| 0 <= i < ms.len() && ms[i] == Some("generateContent"@),
        None => false,
    }
}

/// The identifier that an entry contributes: its name without `models/`,
/// when it offers `generateContent` and the identifier starts with `gemini`.
pub open spec fn offered_model_spec(e: (Option<Seq<char>>, Option<Seq<Option<Seq<char>>>>)) -> Option<Seq<char>> {
    match e.0 {
        Some(name) => if supports_generate_content(e.1) && starts_with_spec(
            replace_spec(name, "models/"@, Seq::empty()),
            "gemini"@,
        ) {
            Some(replace_spec(name, "models/"@, Seq::empty()))
        } else {
            None
        },
        None => None,
    }
}

/// Some entry of `entries` contributes `id`.
pub open spec fn offers_model(entries: Seq<(Option<Seq<char>>, Option<Seq<Option<Seq<char>>>>)>, id: Seq<char>) -> bool {
    exists|i: int| 0 <= i < entries.len() && offered_model_spec(#[trigger] entries[i]) == Some(id)
}

/// Whether `methods` offers `generateContent`.
fn entry_supports_generate_content(methods: &Option<Vec<Option<String>>>) -> (r: bool)
    ensures
        r == supports_generate_content(
            match methods {
                Some(m) => Some(opt_strings_view(m@)),
                None => None,
            },
        ),
{
    match methods {
        Some(ms) => {
            let ghost views = opt_strings_view(ms@);
            let mut i: usize = 0;
            while i < ms.len()
                invariant
                    i <= ms@.len(),
                    *methods == Some(*ms),
                    views == opt_strings_view(ms@),
                    forall|j: int| 0 <= j < i ==> views[j] != Some("generateContent"@),
                decreases ms@.len() - i,
            {
                proof {
                    assert(views[i as int] == opt_view(ms@[i as int]));
                }
                match &ms[i] {
                    Some(m) => {
                        if str_equals(m.as_str(), "generateContent") {
                            proof {
                                assert(ms@[i as int] == Some(*m));
                                assert(views[i as int] == Some(m@));
                                assert(views[i as int] == Some("generateContent"@));
                                assert(supports_generate_content(Some(views)));
                            }
                            return true;
                        }
                    },
                    None => {},
                }
                proof {
                    assert(views[i as int] == opt_view(ms@[i as int]));
                }
                i += 1;
            }
            false
        },
        None => false,
    }
}

/// The models that a listing offers, sorted and without duplicates; the
/// error "No compatible Gemini models found" when there is none.
pub fn offered_gemini_models(entries: &[GeminiModelEntry]) -> (r: Result<Vec<String>, String>)
    ensures
        ({
            let ev = entries@.map_values(|e: GeminiModelEntry| crate::json::model_entry_view(e));
            match r {
                Ok(models) => {
                    &&& models@.len() > 0
                    &&& strictly_sorted(string_views(models@))
                    &&& forall|x: Seq<char>| string_views(models@).contains(x) <==> offers_model(ev, x)
                },
                Err(e) => {
                    &&& e@ == "No compatible Gemini models found"@
                    &&& forall|x: Seq<char>| !offers_model(ev, x)
                },
            }
        }),
{
    let ghost ev = entries@.map_values(|e: GeminiModelEntry| crate::json::model_entry_view(e));
    let mut models: Vec<String> = Vec::new();
    let mut i: usize = 0;
    while i < entries.len()
        invariant
            i <= entries@.len(),
            ev == entries@.map_values(|e: GeminiModelEntry| crate::json::model_entry_view(e)),
            strictly_sorted(string_views(models@)),
            forall|x: Seq<char>| string_views(models@).contains(x) <==> offers_model(ev.subrange(0, i as int), x),
        decreases entries@.len() - i,
    {
        let e = &entries[i];
        let ghost prev = ev.subrange(0, i as int);
        let ghost next = ev.subrange(0, i + 1);
        proof {
            assert(ev[i as int] == crate::json::model_entry_view(entries@[i as int]));
            assert(next[i as int] == ev[i as int]);
            assert forall|x: Seq<char>| offers_model(prev, x) implies offers_model(next, x) by {
                let k = choose|k: int| 0 <= k < prev.len() && offered_model_spec(#[trigger] prev[k]) == Some(x);
                assert(next[k] == prev[k]);
            }
        }
        let mut added = false;
        match &e.name {
            Some(name) => {
                if entry_supports_generate_content(&e.methods) {
                    proof {
                        reveal_strlit("models/");
                    }
                    let clean = replace_str(name.as_str(), "models/", "");
                    proof {
                        reveal_strlit("");
                        assert(""@ =~= Seq::<char>::empty());
                    }
                    if starts_with_str(clean.as_str(), "gemini") {
                        insert_sorted_unique(&mut models, clean);
                        added = true;
                    }
                }
            },
            None => {},
        }
        proof {
            assert forall|x: Seq<char>| string_views(models@).contains(x) <==> offers_model(next, x) by {
                if offers_model(next, x) {
                    let k = choose|k: int| 0 <= k < next.len() && offered_model_spec(#[trigger] next[k]) == Some(x);
                    if k < i {
                        assert(prev[k] == next[k]);
                    }
                }
            }
        }
        i += 1;
    }
    proof {
        assert(ev.subrange(0, entries@.len() as int) =~= ev);
    }
    if models.len() == 0 {
        proof {
            assert forall|x: Seq<char>| !offers_model(ev, x) by {
                if offers_model(ev, x) {
                    assert(string_views(models@).contains(x));
                }
            }
        }
        Err("No compatible Gemini models found".to_owned())
    } else {
        Ok(models)
    }
}

/// Whether `status` is a success status (200 to 299).
pub open spec fn is_success_status(status: u16) -> bool {
    200 <= status <= 299
}

/// What a models response read as `d` gives: for a failed status, the API
/// error with the response's message; otherwise the offered models, sorted
/// and without duplicates, or "No compatible Gemini models found" when the
/// listing offers none.
pub open spec fn models_response_spec(
    status: u16,
    d: (Option<Seq<char>>, Option<Seq<(Option<Seq<char>>, Option<Seq<Option<Seq<char>>>>)>>),
    r: Result<Vec<String>, String>,
) -> bool {
    let entries = match d.1 {
        Some(v) => v,
        None => Seq::empty(),
    };
    if !is_success_status(status) {
        r matches Err(e) && e@ == api_error_spec(status, d.0)
    } else {
        match r {
            Ok(models) => {
                &&& models@.len() > 0
                &&& strictly_sorted(string_views(models@))
                &&& forall|x: Seq<char>| string_views(models@).contains(x) <==> offers_model(entries, x)
            },
            Err(e) => {
                &&& e@ == "No compatible Gemini models found"@
                &&& forall|x: Seq<char>| !offers_model(entries, x)
            },
        }
    }
}

/// What the dialog makes of a parsed models response: the API error for a
/// failed status, otherwise the offered models (see `offered_gemini_models`).
pub fn gemini_models_from_document(status: u16, doc: &GeminiModelsDocument) -> (r: Result<Vec<String>, String>)
    ensures
        models_response_spec(status, gemini_document_view(*doc), r),
{
    if !(200 <= status && status <= 299) {
        let msg = match &doc.error_message {
            Some(m) => Some(m.as_str()),
            None => None,
        };
        return Err(gemini_api_error(status, msg));
    }
    match &doc.models {
        Some(list) => offered_gemini_models(list.as_slice()),
        None => {
            let empty: Vec<GeminiModelEntry> = Vec::new();
            let r = offered_gemini_models(empty.as_slice());
            proof {
                assert(empty@.map_values(|e: GeminiModelEntry| crate::json::model_entry_view(e)) =~= Seq::<
                    (Option<Seq<char>>, Option<Seq<Option<Seq<char>>>>),
                >::empty());
            }
            r
        },
    }
}

/// What the dialog makes of a models response with `status` and text `body`:
/// the error "error decoding response body" when the text is not JSON, otherwise as
/// `gemini_models_from_document` says of the parsed document.
pub fn gemini_models_from_response(status: u16, body: &str) -> (r: Result<Vec<String>, String>)
    ensures
        gemini_models_json(body@) is None ==> (r matches Err(e) && e@ == "error decoding response body"@),
        gemini_models_json(body@) matches Some(d) ==> models_response_spec(status, d, r),
{
    match parse_gemini_models_document(body) {
        Ok(doc) => {
            let r = gemini_models_from_document(status, &doc);
            proof {
                assert(gemini_models_json(body@) == Some(gemini_document_view(doc)));
            }
            r
        },
        Err(_) => Err("error decoding response body".to_owned()),
    }
}

/// The entry to select in the model list after a refresh: the last position
/// of the previously selected model, or the first entry when it is gone.
pub fn gemini_model_selection(models: &[String], selected_text: &str) -> (index: usize)
    ensures
        (exists|i: int| 0 <= i < models@.len() && models@[i]@ == model_id_spec(selected_text@)) ==> {
            &&& index < models@.len()
            &&& models@[index as int]@ == model_id_spec(selected_text@)
            &&& forall|j: int| index < j < models@.len() ==> models@[j]@ != model_id_spec(selected_text@)
        },
        !(exists|i: int| 0 <= i < models@.len() && models@[i]@ == model_id_spec(selected_text@)) ==> index == 0,
{
    let selected = gemini_model_id_from_combo_text(selected_text);
    let mut index: usize = 0;
    let mut found = false;
    let mut i: usize = 0;
    while i < models.len()
        invariant
            i <= models@.len(),
            selected@ == model_id_spec(selected_text@),
            found ==> index < i && models@[index as int]@ == selected@,
            found ==> forall|j: int| index < j < i ==> models@[j]@ != selected@,
            !found ==> index == 0 && forall|j: int| 0 <= j < i ==> models@[j]@ != selected@,
        decreases models@.len() - i,
    {
        if str_equals(models[i].as_str(), selected.as_str()) {
            index = i;
            found = true;
        }
        i += 1;
    }
    index
}

/// What the model list becomes when a models request ends: the shown name
/// of each model with the previously selected model selected (see
/// `gemini_model_selection`), or the request's error.
pub enum GeminiModelsUpdate {
    Replace { labels: Vec<String>, selection: usize },
    Failed { error: String },
}

/// What the model list becomes when a models request ends with `result`,
/// the list showing `selected_text` before.
pub fn gemini_models_update(result: Result<Vec<String>, String>, selected_text: &str) -> (update: GeminiModelsUpdate)
    ensures
        match (result, update) {
            (Ok(models), GeminiModelsUpdate::Replace { labels, selection }) => {
                &&& labels@.len() == models@.len()
                &&& forall|i: int| 0 <= i < models@.len() ==> (#[trigger] labels@[i])@ == display_label_spec(models@[i]@)
                &&& (exists|i: int| 0 <= i < models@.len() && models@[i]@ == model_id_spec(selected_text@)) ==> {
                    &&& selection < models@.len()
                    &&& models@[selection as int]@ == model_id_spec(selected_text@)
                    &&& forall|j: int| selection < j < models@.len() ==> models@[j]@ != model_id_spec(selected_text@)
                }
                &&& !(exists|i: int| 0 <= i < models@.len() && models@[i]@ == model_id_spec(selected_text@))
                    ==> selection == 0
            },
            (Err(e), GeminiModelsUpdate::Failed { error }) => error@ == e@,
            _ => false,
        },
{
    match result {
        Ok(models) => {
            let selection = gemini_model_selection(models.as_slice(), selected_text);
            let mut labels: Vec<String> = Vec::new();
            let mut i: usize = 0;
            while i < models.len()
                invariant
                    i <= models@.len(),
                    labels@.len() == i,
                    forall|k: int| 0 <= k < i ==> (#[trigger] labels@[k])@ == display_label_spec(models@[k]@),
                decreases models@.len() - i,
            {
                labels.push(gemini_model_display_label(models[i].as_str()));
                i += 1;
            }
            GeminiModelsUpdate::Replace { labels, selection }
        },
        Err(error) => GeminiModelsUpdate::Failed { error },
    }
}

/// What the refresh-models button starts: the message that the key is
/// missing when the key field is blank, otherwise a models request with the
/// trimmed key.
pub enum GeminiRefreshStart {
    MissingKey,
    Fetch { api_key: String },
}

/// What pressing the refresh-models button starts, with `api_key_field`
/// in the key field.
pub fn refresh_gemini_models(api_key_field: &str) -> (start: GeminiRefreshStart)
    ensures
        match start {
            GeminiRefreshStart::MissingKey => trim_spec(api_key_field@).len() == 0,
            GeminiRefreshStart::Fetch { api_key } => trim_spec(api_key_field@).len() > 0 && api_key@ == trim_spec(
                api_key_field@,
            ),
        },
{
    let key = trim(api_key_field);
    if key.as_str().is_empty() {
        GeminiRefreshStart::MissingKey
    } else {
        GeminiRefreshStart::Fetch { api_key: key }
    }
}

/// The model to save from the model-list text: its identifier, or the
/// default model when the text is blank.
pub fn gemini_model_setting(combo_text: &str) -> (model: String)
    ensures
        model@ == (if model_id_spec(combo_text@).len() == 0 {
            DEFAULT_GEMINI_MODEL@
        } else {
            model_id_spec(combo_text@)
        }),
{
    let id = gemini_model_id_from_combo_text(combo_text);
    if id.as_str().is_empty() {
        DEFAULT_GEMINI_MODEL.to_owned()
    } else {
        id
    }
}

/// The entries of the model list when the dialog opens: the two "latest"
/// aliases by their shown names, then the saved model when it is another one.
pub open spec fn initial_model_items_spec(model: Seq<char>) -> Seq<Seq<char>> {
    let base = seq![display_label_spec(DEFAULT_GEMINI_MODEL@), display_label_spec(GEMINI_FLASH_LITE_LATEST_MODEL@)];
    if model.len() > 0 && model != DEFAULT_GEMINI_MODEL@ && model != GEMINI_FLASH_LITE_LATEST_MODEL@ {
        base.push(model)
    } else {
        base
    }
}

/// The shown name of the saved model (of the default model when none is saved).
pub open spec fn initial_model_text_spec(model: Seq<char>) -> Seq<char> {
    display_label_spec(
        if model.len() == 0 {
            DEFAULT_GEMINI_MODEL@
        } else {
            model
        },
    )
}

/// The model list when the dialog opens and the entry to select: the entry
/// that shows the saved model (compared ignoring ASCII case), or the first.
pub fn gemini_model_initial_items(model: &str) -> (r: (Vec<String>, usize))
    ensures
        string_views(r.0@) == initial_model_items_spec(model@),
        r.1 == (match first_match_ignoring_case(initial_model_items_spec(model@), initial_model_text_spec(model@)) {
            Some(i) => i,
            None => 0,
        }),
{
    let mut items: Vec<String> = Vec::new();
    items.push(gemini_model_display_label(DEFAULT_GEMINI_MODEL));
    items.push(gemini_model_display_label(GEMINI_FLASH_LITE_LATEST_MODEL));
    if !model.is_empty() && !str_equals(model, DEFAULT_GEMINI_MODEL) && !str_equals(
        model,
        GEMINI_FLASH_LITE_LATEST_MODEL,
    ) {
        items.push(model.to_owned());
    }
    proof {
        assert(string_views(items@) =~= initial_model_items_spec(model@));
    }
    let text = if model.is_empty() {
        gemini_model_display_label(DEFAULT_GEMINI_MODEL)
    } else {
        gemini_model_display_label(model)
    };
    let ghost views = string_views(items@);
    let mut i: usize = 0;
    proof {
        assert(views.skip(0) =~= views);
    }
    while i < items.len()
        invariant
            i <= items@.len(),
            views == string_views(items@),
            views == initial_model_items_spec(model@),
            text@ == initial_model_text_spec(model@),
            first_match_ignoring_case(views, text@) == (match first_match_ignoring_case(views.skip(i as int), text@) {
                Some(k) => Some(k + i),
                None => None,
            }),
        decreases items@.len() - i,
    {
        proof {
            assert(views.skip(i as int).drop_first() =~= views.skip(i + 1));
            assert(views.skip(i as int)[0] == items@[i as int]@);
        }
        if eq_ignore_ascii_case(items[i].as_str(), text.as_str()) {
            return (items, i);
        }
        i += 1;
    }
    proof {
        assert(views.skip(items@.len() as int) =~= Seq::<Seq<char>>::empty());
    }
    (items, 0)
}

} // verus!
