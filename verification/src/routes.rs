//! The compute side of the two endpoints: the Fibonacci function with its
//! input ceiling, and the functions that build each endpoint's full reply
//! (outer status, content type and serialized body) from plain values.

use vstd::prelude::*;

use crate::json_api::{
    body_json, errors_model, title_spec, ErrorModel, JsonPayload, Output,
};
use crate::json_text::{chars_to_string, dec_seq, push_dec, push_str_chars};

verus! {

/// The Fibonacci function.
pub open spec fn fib_spec(n: nat) -> nat
    decreases n,
{
    if n == 0 {
        0
    } else if n == 1 {
        1
    } else {
        fib_spec((n - 1) as nat) + fib_spec((n - 2) as nat)
    }
}

/// The Fibonacci function never decreases from one argument to the next.
proof fn lemma_fib_mono(m: nat, n: nat)
    requires
        m <= n,
    ensures
        fib_spec(m) <= fib_spec(n),
    decreases n - m,
{
    if m < n {
        lemma_fib_mono(m, (n - 1) as nat);
    }
}

/// The Fibonacci value just above the input ceiling, to bound every
/// intermediate sum of the computation.
proof fn lemma_fib_value_42()
    ensures
        fib_spec(42) == 267914296,
{
    assert(fib_spec(0) == 0);
    assert(fib_spec(1) == 1);
    assert(fib_spec(2) == 1);
    assert(fib_spec(3) == 2);
    assert(fib_spec(4) == 3);
    assert(fib_spec(5) == 5);
    assert(fib_spec(6) == 8);
    assert(fib_spec(7) == 13);
    assert(fib_spec(8) == 21);
    assert(fib_spec(9) == 34);
    assert(fib_spec(10) == 55);
    assert(fib_spec(11) == 89);
    assert(fib_spec(12) == 144);
    assert(fib_spec(13) == 233);
    assert(fib_spec(14) == 377);
    assert(fib_spec(15) == 610);
    assert(fib_spec(16) == 987);
    assert(fib_spec(17) == 1597);
    assert(fib_spec(18) == 2584);
    assert(fib_spec(19) == 4181);
    assert(fib_spec(20) == 6765);
    assert(fib_spec(21) == 10946);
    assert(fib_spec(22) == 17711);
    assert(fib_spec(23) == 28657);
    assert(fib_spec(24) == 46368);
    assert(fib_spec(25) == 75025);
    assert(fib_spec(26) == 121393);
    assert(fib_spec(27) == 196418);
    assert(fib_spec(28) == 317811);
    assert(fib_spec(29) == 514229);
    assert(fib_spec(30) == 832040);
    assert(fib_spec(31) == 1346269);
    assert(fib_spec(32) == 2178309);
    assert(fib_spec(33) == 3524578);
    assert(fib_spec(34) == 5702887);
    assert(fib_spec(35) == 9227465);
    assert(fib_spec(36) == 14930352);
    assert(fib_spec(37) == 24157817);
    assert(fib_spec(38) == 39088169);
    assert(fib_spec(39) == 63245986);
    assert(fib_spec(40) == 102334155);
    assert(fib_spec(41) == 165580141);
    assert(fib_spec(42) == 267914296);
}

/// Recursive, un-memoised Fibonacci, to simulate long work. The input
/// ceiling of 40 keeps every intermediate value well inside the machine
/// integer range.
pub fn fibonacci(n: usize) -> (r: usize)
    requires
        n <= 40,
    ensures
        r == fib_spec(n as nat),
    decreases n,
{
    if n == 0 {
        0
    } else if n == 1 {
        1
    } else {
        let x = fibonacci(n - 1);
        let y = fibonacci(n - 2);
        proof {
            lemma_fib_value_42();
            lemma_fib_mono(n as nat, 42);
        }
        x + y
    }
}

/// The success payload of the Fibonacci endpoint: the query value and the
/// computed result.
pub struct NumQueryResponse {
    pub n: usize,
    pub result: usize,
}

impl JsonPayload for NumQueryResponse {
    open spec fn json_spec(&self) -> Seq<char> {
        "{\"n\":"@ + dec_seq(self.n as nat) + ",\"result\":"@ + dec_seq(self.result as nat)
            + "}"@
    }

    fn push_json(&self, out: &mut Vec<char>) {
        push_str_chars(out, "{\"n\":");
        push_dec(out, self.n as u64);
        push_str_chars(out, ",\"result\":");
        push_dec(out, self.result as u64);
        push_str_chars(out, "}");
        proof {
            assert(out@ =~= old(out)@ + self.json_spec());
        }
    }
}

/// Builds the whole reply of the Fibonacci endpoint for the parsed query
/// value `n`: above the ceiling of 40 a single "not acceptable" error naming
/// the offending value, otherwise the computed payload under the default
/// success status.
pub fn fib_response(n: usize) -> (r: (u16, String, String))
    ensures
        r.1@ == "application/vnd.api+json"@,
        n > 40 ==> r.0 == 400 && r.2@ == body_json(
            None,
            seq![
                (ErrorModel {
                    status: 406,
                    source: Some("/fib"@),
                    title: title_spec(406),
                    detail: Some("Number is too high: "@ + dec_seq(n as nat)),
                }),
            ],
        ),
        n <= 40 ==> r.0 == 200 && r.2@ == body_json(
            Some(
                "{\"n\":"@ + dec_seq(n as nat) + ",\"result\":"@ + dec_seq(fib_spec(n as nat))
                    + "}"@,
            ),
            Seq::empty(),
        ),
{
    let mut result: Output<NumQueryResponse> = Output::new();
    if n > 40 {
        result.add_error(406);
        let mut detail: Vec<char> = Vec::new();
        push_str_chars(&mut detail, "Number is too high: ");
        push_dec(&mut detail, n as u64);
        result.err_detail(chars_to_string(&detail));
        result.err_source("/fib".to_owned());
        proof {
            let model = errors_model(result.errors@);
            assert(model =~= seq![
                (ErrorModel {
                    status: 406,
                    source: Some("/fib"@),
                    title: title_spec(406),
                    detail: Some("Number is too high: "@ + dec_seq(n as nat)),
                }),
            ]);
        }
        result.respond()
    } else {
        let computed = fibonacci(n);
        result.add(NumQueryResponse { n, result: computed });
        proof {
            assert(errors_model(result.errors@) =~= Seq::<ErrorModel>::empty());
        }
        result.respond()
    }
}

/// Builds the reply of the Fibonacci endpoint for the case where the
/// offloaded computation failed: a single "unprocessable" error whose detail
/// carries the failure description handed in by the caller.
pub fn fib_failure_response(message: &str) -> (r: (u16, String, String))
    ensures
        r.0 == 400,
        r.1@ == "application/vnd.api+json"@,
        r.2@ == body_json(
            None,
            seq![
                (ErrorModel {
                    status: 422,
                    source: Some("fib"@),
                    title: title_spec(422),
                    detail: Some("Calculation failed: "@ + message@),
                }),
            ],
        ),
{
    let mut result: Output<NumQueryResponse> = Output::new();
    result.add_error(422);
    let mut detail: Vec<char> = Vec::new();
    push_str_chars(&mut detail, "Calculation failed: ");
    push_str_chars(&mut detail, message);
    result.err_detail(chars_to_string(&detail));
    result.err_source("fib".to_owned());
    proof {
        let model = errors_model(result.errors@);
        assert(model =~= seq![
            (ErrorModel {
                status: 422,
                source: Some("fib"@),
                title: title_spec(422),
                detail: Some("Calculation failed: "@ + message@),
            }),
        ]);
    }
    result.respond()
}

/// Builds the reply of the diagnostics endpoint: a "service unavailable"
/// error with a source and a detail, then a "teapot" error whose title keeps
/// its default and which carries only a detail. The first error's
/// server-class status forces the outer status to 500.
pub fn errors_response() -> (r: (u16, String, String))
    ensures
        r.0 == 500,
        r.1@ == "application/vnd.api+json"@,
        r.2@ == body_json(
            None,
            seq![
                (ErrorModel {
                    status: 503,
                    source: Some("/errors"@),
                    title: title_spec(503),
                    detail: Some("First error"@),
                }),
                (ErrorModel {
                    status: 418,
                    source: None,
                    title: title_spec(418),
                    detail: Some("Second, teapot error"@),
                }),
            ],
        ),
{
    let mut result: Output<u8> = Output::new();
    result.add_error(503);
    result.err_source("/errors".to_owned());
    result.err_detail("First error".to_owned());
    result.add_error(418);
    result.err_detail("Second, teapot error".to_owned());
    proof {
        let model = errors_model(result.errors@);
        assert(model =~= seq![
            (ErrorModel {
                status: 503,
                source: Some("/errors"@),
                title: title_spec(503),
                detail: Some("First error"@),
            }),
            (ErrorModel {
                status: 418,
                source: None,
                title: title_spec(418),
                detail: Some("Second, teapot error"@),
            }),
        ]);
        assert(model[0].status >= 500);
    }
    result.respond()
}

} // verus!
