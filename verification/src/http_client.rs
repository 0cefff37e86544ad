//! The decisions around one HTTP exchange: how the values of a request body
//! are written into the query, and what is returned for each way the
//! exchange can end. Sending and receiving are the caller's part.

use vstd::prelude::*;
use vstd::string::StringExecFns;

verus! {

/// A value of a request body. Numbers and composite values come as the text
/// that stands for them.
#[derive(Clone, Debug, PartialEq, Eq)]
pub enum QueryValue {
    Text(String),
    Number(String),
    Flag(bool),
    Other(String),
}

/// What a [`QueryValue`] holds, as plain values.
pub enum QueryValueView {
    Text(Seq<char>),
    Number(Seq<char>),
    Flag(bool),
    Other(Seq<char>),
}

impl View for QueryValue {
    type V = QueryValueView;

    open spec fn view(&self) -> QueryValueView {
        match self {
            QueryValue::Text(s) => QueryValueView::Text(s@),
            QueryValue::Number(n) => QueryValueView::Number(n@),
            QueryValue::Flag(b) => QueryValueView::Flag(*b),
            QueryValue::Other(j) => QueryValueView::Other(j@),
        }
    }
}

/// How a request reached, or did not reach, a response. `R` is whatever the
/// caller needs to read the body later.
#[derive(Clone, Debug, PartialEq, Eq)]
pub enum SendOutcome<R> {
    /// The request could not be sent; the transport's message.
    Failed(String),
    /// A response came, with this status code and this status line.
    Answered { code: u16, status: String, response: R },
}

/// The text that a value contributes to the query: a text as it is, without
/// quotes, and anything else in the form it is written in a document.
pub open spec fn query_text(value: QueryValueView) -> Seq<char> {
    match value {
        QueryValueView::Text(s) => s,
        QueryValueView::Number(n) => n,
        QueryValueView::Flag(b) => if b {
            "true"@
        } else {
            "false"@
        },
        QueryValueView::Other(j) => j,
    }
}

/// A status code in the range of success, 200 to 299.
pub open spec fn is_success(code: u16) -> bool {
    200 <= code < 300
}

/// What follows a send: the response where its body is to be read, else the
/// error that ends the exchange.
pub open spec fn send_verdict<R>(outcome: SendOutcome<R>) -> Result<R, Seq<char>> {
    match outcome {
        SendOutcome::Failed(message) => Err("发送请求失败: "@ + message@),
        SendOutcome::Answered { code, status, response } => if is_success(code) {
            Ok(response)
        } else {
            Err("请求失败，状态码: "@ + status@)
        },
    }
}

/// What the exchange returns once the body was read, or could not be read.
pub open spec fn body_verdict(body: Result<Seq<char>, Seq<char>>) -> Result<Seq<char>, Seq<char>> {
    match body {
        Ok(text) => Ok(text),
        Err(message) => Err("读取响应失败: "@ + message),
    }
}

/// The characters of a text or of the message in its place.
pub open spec fn text_result_view(r: Result<String, String>) -> Result<Seq<char>, Seq<char>> {
    match r {
        Ok(text) => Ok(text@),
        Err(message) => Err(message@),
    }
}

/// The text that a value contributes to the query.
pub fn query_value_text(value: &QueryValue) -> (r: String)
    ensures
        r@ == query_text(value@),
{
    match value {
        QueryValue::Text(s) => s.clone(),
        QueryValue::Number(n) => n.clone(),
        QueryValue::Flag(b) => if *b {
            String::from_str("true")
        } else {
            String::from_str("false")
        },
        QueryValue::Other(j) => j.clone(),
    }
}

/// The query parameters for a request body: one per entry, in the order of
/// the entries, under the entry's key.
pub fn query_pairs(body: &Vec<(String, QueryValue)>) -> (r: Vec<(String, String)>)
    ensures
        r.len() == body.len(),
        forall|i: int|
            0 <= i < r.len() ==> (#[trigger] r[i]).0@ == body[i].0@ && r[i].1@ == query_text(
                body[i].1@,
            ),
{
    let mut out: Vec<(String, String)> = Vec::new();
    let mut i: usize = 0;
    while i < body.len()
        invariant
            i <= body.len(),
            out.len() == i,
            forall|j: int|
                0 <= j < i ==> (#[trigger] out[j]).0@ == body[j].0@ && out[j].1@ == query_text(
                    body[j].1@,
                ),
        decreases body.len() - i,
    {
        let entry = &body[i];
        out.push((entry.0.clone(), query_value_text(&entry.1)));
        i = i + 1;
    }
    out
}

/// Whether a status code is in the range of success.
pub fn status_is_success(code: u16) -> (r: bool)
    ensures
        r == is_success(code),
{
    200 <= code && code < 300
}

/// Decides what follows a send: the response where its body is to be read,
/// else the error that ends the exchange.
pub fn after_send<R>(outcome: SendOutcome<R>) -> (r: Result<R, String>)
    ensures
        match r {
            Ok(response) => send_verdict(outcome) == Ok::<R, Seq<char>>(response),
            Err(message) => send_verdict(outcome) == Err::<R, Seq<char>>(message@),
        },
{
    match outcome {
        SendOutcome::Failed(message) => Err(
            String::from_str("发送请求失败: ").concat(message.as_str()),
        ),
        SendOutcome::Answered { code, status, response } => if status_is_success(code) {
            Ok(response)
        } else {
            Err(String::from_str("请求失败，状态码: ").concat(status.as_str()))
        },
    }
}

/// Decides what the exchange returns once the body was read, or could not
/// be read.
pub fn after_body(body: Result<String, String>) -> (r: Result<String, String>)
    ensures
        text_result_view(r) == body_verdict(text_result_view(body)),
{
    match body {
        Ok(text) => Ok(text),
        Err(message) => Err(String::from_str("读取响应失败: ").concat(message.as_str())),
    }
}

} // verus!
