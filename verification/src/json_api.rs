//! The response envelope: a generic success/error wrapper whose outer HTTP
//! status is derived from the accumulated errors and whose body is a JSON
//! object that omits the `data` key when no payload was set and the `errors`
//! key when no error was appended.

use vstd::prelude::*;

use crate::json_text::{
    chars_to_string, dec_seq, escape_seq, push_dec, push_escaped, push_str_chars,
};

verus! {

/// The canonical reason phrase of an HTTP status code, or `None` where the
/// code has none defined. The value is fixed by the code alone; what it is on
/// a given code is learned only by calling `canonical_reason_text`.
pub uninterp spec fn reason_phrase(code: u16) -> Option<Seq<char>>;

/// Relies on `http::StatusCode::canonical_reason`, reached through axum's
/// re-export of the `http` crate: the reason phrase is a fixed table keyed by
/// the numeric code alone, and codes outside 100..=999 have no phrase
/// (`StatusCode::from_u16` refuses them).
#[verifier::external_body]
fn canonical_reason_text(code: u16) -> (r: Option<String>)
    ensures
        r is Some <==> reason_phrase(code) is Some,
        r is Some ==> r.unwrap()@ == reason_phrase(code).unwrap(),
{
    match axum::http::StatusCode::from_u16(code) {
        Ok(status) => match status.canonical_reason() {
            Some(phrase) => Some(phrase.to_string()),
            None => None,
        },
        Err(_) => None,
    }
}

/// The default title of an error record: the canonical reason phrase of its
/// status code, or the empty string where the code has none.
pub open spec fn title_spec(code: u16) -> Seq<char> {
    match reason_phrase(code) {
        Some(phrase) => phrase,
        None => Seq::empty(),
    }
}

/// The mathematical model of one error record.
pub ghost struct ErrorModel {
    pub status: u16,
    pub source: Option<Seq<char>>,
    pub title: Seq<char>,
    pub detail: Option<Seq<char>>,
}

/// A single structured error record of the envelope.
pub struct JsonError {
    pub status: u16,
    pub source: Option<String>,
    pub title: String,
    pub detail: Option<String>,
}

impl View for JsonError {
    type V = ErrorModel;

    open spec fn view(&self) -> ErrorModel {
        ErrorModel {
            status: self.status,
            source: match self.source {
                Some(s) => Some(s@),
                None => None,
            },
            title: self.title@,
            detail: match self.detail {
                Some(d) => Some(d@),
                None => None,
            },
        }
    }
}

/// The models of a sequence of error records, in order.
pub open spec fn errors_model(errs: Seq<JsonError>) -> Seq<ErrorModel> {
    errs.map_values(|e: JsonError| e@)
}

/// The serialized form of one error record: its status as a bare number, then
/// each optional string field only where it is set, strings escaped.
pub open spec fn error_json(e: ErrorModel) -> Seq<char> {
    "{\"status\":"@ + dec_seq(e.status as nat) + (match e.source {
        Some(s) => ",\"source\":\""@ + escape_seq(s) + "\""@,
        None => Seq::empty(),
    }) + ",\"title\":\""@ + escape_seq(e.title) + "\""@ + (match e.detail {
        Some(d) => ",\"detail\":\""@ + escape_seq(d) + "\""@,
        None => Seq::empty(),
    }) + "}"@
}

/// The serialized members of the `errors` array, in insertion order, separated
/// by commas.
pub open spec fn error_list_json(errs: Seq<ErrorModel>) -> Seq<char>
    decreases errs.len(),
{
    if errs.len() == 0 {
        Seq::empty()
    } else if errs.len() == 1 {
        error_json(errs.last())
    } else {
        error_list_json(errs.drop_last()) + ","@ + error_json(errs.last())
    }
}

/// The serialized body: a JSON object holding the `data` key only where a
/// payload was set and the `errors` key only where the error set is
/// non-empty.
pub open spec fn body_json(data: Option<Seq<char>>, errs: Seq<ErrorModel>) -> Seq<char> {
    "{"@ + (match data {
        Some(d) => "\"data\":"@ + d,
        None => Seq::empty(),
    }) + (if data is Some && errs.len() > 0 {
        ","@
    } else {
        Seq::empty()
    }) + (if errs.len() > 0 {
        "\"errors\":["@ + error_list_json(errs) + "]"@
    } else {
        Seq::empty()
    }) + "}"@
}

/// The outer HTTP status: the caller-supplied code where no error was
/// appended; otherwise 500 where any error carries a server-class status
/// (at least 500), else 400.
pub open spec fn outer_status(errs: Seq<ErrorModel>, code: u16) -> u16 {
    if errs.len() == 0 {
        code
    } else if exists|i: int| 0 <= i < errs.len() && (#[trigger] errs[i].status) >= 500 {
        500
    } else {
        400
    }
}

/// For a non-empty error set the outer status is 500 exactly when at least
/// one member carries a status of 500 or above, and 400 in every other case,
/// whatever status code the caller supplied.
pub proof fn lemma_outer_status_rule(errs: Seq<ErrorModel>, code: u16)
    requires
        errs.len() > 0,
    ensures
        outer_status(errs, code) == 500 <==> exists|i: int|
            0 <= i < errs.len() && (#[trigger] errs[i].status) >= 500,
        outer_status(errs, code) != 500 ==> outer_status(errs, code) == 400,
{
}

/// An envelope with no payload and no errors serializes to the empty JSON
/// object: neither the `data` key nor the `errors` key appears.
pub proof fn lemma_empty_body()
    ensures
        body_json(None, Seq::empty()) == "{}"@,
{
    reveal_strlit("{");
    reveal_strlit("}");
    reveal_strlit("{}");
    assert(body_json(None, Seq::<ErrorModel>::empty()) =~= "{}"@);
}

/// A payload that can stand under the envelope's `data` key: its serialized
/// JSON form is fixed by `json_spec`.
pub trait JsonPayload {
    /// The serialized JSON form of this payload.
    spec fn json_spec(&self) -> Seq<char>;

    /// Appends the serialized JSON form of this payload to `out`.
    fn push_json(&self, out: &mut Vec<char>)
        ensures
            final(out)@ == old(out)@ + self.json_spec(),
    ;
}

impl JsonPayload for u8 {
    open spec fn json_spec(&self) -> Seq<char> {
        dec_seq(*self as nat)
    }

    fn push_json(&self, out: &mut Vec<char>) {
        push_dec(out, *self as u64);
    }
}

/// The serialized `data` key content of an envelope: the payload's JSON form
/// where a payload was set, and nothing otherwise.
pub open spec fn data_json<T: JsonPayload>(data: Option<T>) -> Option<Seq<char>> {
    match data {
        Some(v) => Some(v.json_spec()),
        None => None,
    }
}

/// The response envelope: at most one success payload and zero or more error
/// records, in insertion order.
pub struct Output<T> {
    pub data: Option<T>,
    pub errors: Vec<JsonError>,
}

impl<T> Output<T> {
    /// Returns an empty envelope: no payload and no errors.
    pub fn new() -> (r: Output<T>)
        ensures
            r.data is None,
            r.errors@ == Seq::<JsonError>::empty(),
    {
        Output { data: None, errors: Vec::new() }
    }

    /// Sets the payload, overwriting any previous one; the errors are kept.
    pub fn add(&mut self, data: T)
        ensures
            final(self).data == Some(data),
            final(self).errors == old(self).errors,
    {
        self.data = Some(data);
    }

    /// Appends a new error record with the given status code, its title
    /// defaulted to the canonical reason phrase of that code (empty where the
    /// code has none), and no source or detail.
    pub fn add_error(&mut self, status_code: u16)
        ensures
            final(self).data == old(self).data,
            final(self).errors@.len() == old(self).errors@.len() + 1,
            final(self).errors@.subrange(0, old(self).errors@.len() as int) == old(
                self,
            ).errors@,
            final(self).errors@.last()@ == (ErrorModel {
                status: status_code,
                source: None,
                title: title_spec(status_code),
                detail: None,
            }),
    {
        let title = match canonical_reason_text(status_code) {
            Some(phrase) => phrase,
            None => String::new(),
        };
        self.errors.push(JsonError { status: status_code, source: None, title, detail: None });
        proof {
            assert(self.errors@.subrange(0, old(self).errors@.len() as int) =~= old(
                self,
            ).errors@);
        }
    }

    /// Sets the `source` of the most recently appended error; an envelope
    /// with no errors is left unchanged.
    pub fn err_source(&mut self, source: String)
        ensures
            final(self).data == old(self).data,
            old(self).errors@.len() == 0 ==> final(self).errors == old(self).errors,
            old(self).errors@.len() > 0 ==> {
                let n = old(self).errors@.len() as int;
                &&& final(self).errors@.len() == n
                &&& final(self).errors@.subrange(0, n - 1) == old(self).errors@.subrange(0, n - 1)
                &&& final(self).errors@.last()@ == (ErrorModel {
                    source: Some(source@),
                    ..old(self).errors@.last()@
                })
            },
    {
        if self.errors.len() > 0 {
            let mut last = self.errors.pop().unwrap();
            last.source = Some(source);
            self.errors.push(last);
            proof {
                let n = old(self).errors@.len() as int;
                assert(self.errors@.subrange(0, n - 1) =~= old(self).errors@.subrange(0, n - 1));
            }
        }
    }

    /// Overwrites the `title` of the most recently appended error; an
    /// envelope with no errors is left unchanged.
    pub fn err_title(&mut self, title: String)
        ensures
            final(self).data == old(self).data,
            old(self).errors@.len() == 0 ==> final(self).errors == old(self).errors,
            old(self).errors@.len() > 0 ==> {
                let n = old(self).errors@.len() as int;
                &&& final(self).errors@.len() == n
                &&& final(self).errors@.subrange(0, n - 1) == old(self).errors@.subrange(0, n - 1)
                &&& final(self).errors@.last()@ == (ErrorModel {
                    title: title@,
                    ..old(self).errors@.last()@
                })
            },
    {
        if self.errors.len() > 0 {
            let mut last = self.errors.pop().unwrap();
            last.title = title;
            self.errors.push(last);
            proof {
                let n = old(self).errors@.len() as int;
                assert(self.errors@.subrange(0, n - 1) =~= old(self).errors@.subrange(0, n - 1));
            }
        }
    }

    /// Sets the `detail` of the most recently appended error; an envelope
    /// with no errors is left unchanged.
    pub fn err_detail(&mut self, detail: String)
        ensures
            final(self).data == old(self).data,
            old(self).errors@.len() == 0 ==> final(self).errors == old(self).errors,
            old(self).errors@.len() > 0 ==> {
                let n = old(self).errors@.len() as int;
                &&& final(self).errors@.len() == n
                &&& final(self).errors@.subrange(0, n - 1) == old(self).errors@.subrange(0, n - 1)
                &&& final(self).errors@.last()@ == (ErrorModel {
                    detail: Some(detail@),
                    ..old(self).errors@.last()@
                })
            },
    {
        if self.errors.len() > 0 {
            let mut last = self.errors.pop().unwrap();
            last.detail = Some(detail);
            self.errors.push(last);
            proof {
                let n = old(self).errors@.len() as int;
                assert(self.errors@.subrange(0, n - 1) =~= old(self).errors@.subrange(0, n - 1));
            }
        }
    }
}

/// Appends the serialized form of one error record to `out`.
#[verifier::rlimit(50)]
fn render_error(out: &mut Vec<char>, e: &JsonError)
    ensures
        final(out)@ == old(out)@ + error_json(e@),
{
    push_str_chars(out, "{\"status\":");
    push_dec(out, e.status as u64);
    match &e.source {
        Some(s) => {
            push_str_chars(out, ",\"source\":\"");
            push_escaped(out, s.as_str());
            push_str_chars(out, "\"");
        },
        None => {},
    }
    push_str_chars(out, ",\"title\":\"");
    push_escaped(out, e.title.as_str());
    push_str_chars(out, "\"");
    match &e.detail {
        Some(d) => {
            push_str_chars(out, ",\"detail\":\"");
            push_escaped(out, d.as_str());
            push_str_chars(out, "\"");
        },
        None => {},
    }
    push_str_chars(out, "}");
    proof {
        assert(out@ =~= old(out)@ + error_json(e@));
    }
}

impl<T: JsonPayload> Output<T> {
    /// Finalizes the envelope with the default success status 200: the outer
    /// HTTP status follows the derivation rule, the content type is always
    /// `application/vnd.api+json`, and the body is the serialized envelope.
    pub fn respond(self) -> (r: (u16, String, String))
        ensures
            r.0 == outer_status(errors_model(self.errors@), 200),
            self.errors@.len() == 0 ==> r.0 == 200,
            r.1@ == "application/vnd.api+json"@,
            r.2@ == body_json(data_json(self.data), errors_model(self.errors@)),
    {
        self.respond_with_code(200)
    }

    /// Finalizes the envelope with a caller-supplied success status: the code
    /// is used as the outer HTTP status only where no error was appended;
    /// otherwise the derivation rule decides between 500 and 400. Each error
    /// record keeps its own status verbatim in the body.
    pub fn respond_with_code(self, status_code: u16) -> (r: (u16, String, String))
        ensures
            r.0 == outer_status(errors_model(self.errors@), status_code),
            r.1@ == "application/vnd.api+json"@,
            r.2@ == body_json(data_json(self.data), errors_model(self.errors@)),
    {
        let ghost model: Seq<ErrorModel> = errors_model(self.errors@);
        let n = self.errors.len();
        let mut code: u16 = status_code;
        if n > 0 {
            let mut internal = false;
            let mut i: usize = 0;
            while i < n
                invariant
                    i <= n,
                    n == self.errors.len(),
                    model == errors_model(self.errors@),
                    internal <==> exists|j: int|
                        0 <= j < i && (#[trigger] model[j].status) >= 500,
                decreases n - i,
            {
                if self.errors[i].status >= 500 {
                    internal = true;
                    assert(model[i as int].status >= 500);
                }
                i = i + 1;
            }
            code = if internal {
                500
            } else {
                400
            };
        }
        let mut out: Vec<char> = Vec::new();
        push_str_chars(&mut out, "{");
        match &self.data {
            Some(v) => {
                push_str_chars(&mut out, "\"data\":");
                v.push_json(&mut out);
                if n > 0 {
                    push_str_chars(&mut out, ",");
                }
            },
            None => {},
        }
        if n > 0 {
            push_str_chars(&mut out, "\"errors\":[");
            let ghost base: Seq<char> = out@;
            let mut i: usize = 0;
            while i < n
                invariant
                    i <= n,
                    0 < n == self.errors.len(),
                    model == errors_model(self.errors@),
                    i == 0 ==> out@ == base,
                    i > 0 ==> out@ == base + error_list_json(model.subrange(0, i as int)),
                decreases n - i,
            {
                if i > 0 {
                    push_str_chars(&mut out, ",");
                }
                render_error(&mut out, &self.errors[i]);
                proof {
                    let prefix = model.subrange(0, i as int);
                    let step = model.subrange(0, i + 1 as int);
                    assert(step.drop_last() =~= prefix);
                    assert(step.last() == model[i as int]);
                    assert(model[i as int] == self.errors@[i as int]@);
                    assert(out@ =~= base + error_list_json(step));
                }
                i = i + 1;
            }
            proof {
                assert(model.subrange(0, n as int) =~= model);
            }
            push_str_chars(&mut out, "]");
        }
        push_str_chars(&mut out, "}");
        proof {
            assert(out@ =~= body_json(data_json(self.data), model));
        }
        let body = chars_to_string(&out);
        let content_type = "application/vnd.api+json".to_owned();
        (code, content_type, body)
    }
}

} // verus!
