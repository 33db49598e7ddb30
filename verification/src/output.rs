//! The human-readable (markdown) form of a response.

use vstd::prelude::*;
use crate::error::ApiError;
use crate::text::{cat, cat3};
use crate::types::{renders_as, Notice, Render, Response, ResponseMeta};

verus! {

/// The markdown lines for an error: its code and message, then its
/// suggestion as a quote when there is one.
pub open spec fn error_markdown(e: ApiError) -> Seq<char> {
    "**Error ["@ + e.code@ + "]:** "@ + e.message@ + "\n"@ + match e.suggestion {
        Some(s) => "\n> "@ + s@ + "\n"@,
        None => Seq::<char>::empty(),
    }
}

/// The markdown comment for one notice.
pub open spec fn notice_markdown(n: Notice) -> Seq<char> {
    match n {
        Notice::Update { message, .. } => "\n<!-- "@ + message@ + " -->\n"@,
    }
}

/// The markdown comments for the notices `ns`, in order.
pub open spec fn notices_markdown(ns: Seq<Notice>) -> Seq<char>
    decreases ns.len(),
{
    if ns.len() == 0 {
        Seq::<char>::empty()
    } else {
        notices_markdown(ns.drop_last()) + notice_markdown(ns.last())
    }
}

/// The part of a response's markdown after its data: the error, then the
/// notices of its metadata.
pub open spec fn tail_markdown<T>(r: Response<T>) -> Seq<char> {
    (match r.error {
        Some(e) => error_markdown(e),
        None => Seq::<char>::empty(),
    }) + (match r.meta {
        Some(m) => notices_markdown(m.notices@),
        None => Seq::<char>::empty(),
    })
}

/// `s` is the markdown form of `r`: the data as it renders, then the
/// error, then the notices.
pub open spec fn is_response_markdown<T: Render>(r: Response<T>, s: Seq<char>) -> bool {
    let tail = tail_markdown(r);
    match r.data {
        None => s == tail,
        Some(d) => {
            &&& s.len() >= tail.len()
            &&& renders_as(&d, s.subrange(0, s.len() - tail.len()))
            &&& s.subrange(s.len() - tail.len(), s.len() as int) == tail
        },
    }
}

fn render_error(e: &ApiError) -> (s: String)
    ensures
        s@ == error_markdown(*e),
{
    let head = cat3("**Error [", e.code.as_str(), "]:** ");
    let line = cat3(head.as_str(), e.message.as_str(), "\n");
    match &e.suggestion {
        Some(sug) => {
            let quote = cat3("\n> ", sug.as_str(), "\n");
            cat(line.as_str(), quote.as_str())
        },
        None => line,
    }
}

fn render_notices(meta: &ResponseMeta) -> (s: String)
    ensures
        s@ == notices_markdown(meta.notices@),
{
    let mut out = String::new();
    let mut i: usize = 0;
    while i < meta.notices.len()
        invariant
            i <= meta.notices.len(),
            out@ == notices_markdown(meta.notices@.take(i as int)),
        decreases meta.notices.len() - i,
    {
        let ghost before = meta.notices@.take(i as int);
        match &meta.notices[i] {
            Notice::Update { message, .. } => {
                let line = cat3("\n<!-- ", message.as_str(), " -->\n");
                out = cat(out.as_str(), line.as_str());
            },
        }
        assert(meta.notices@.take(i as int + 1).drop_last() =~= before);
        i = i + 1;
    }
    assert(meta.notices@.take(meta.notices.len() as int) =~= meta.notices@);
    out
}

/// The markdown form of `resp`.
pub fn format_markdown<T: Render>(resp: &Response<T>) -> (s: String)
    ensures
        is_response_markdown(*resp, s@),
{
    let error_part = match &resp.error {
        Some(e) => render_error(e),
        None => String::new(),
    };
    let notice_part = match &resp.meta {
        Some(m) => render_notices(m),
        None => String::new(),
    };
    let tail = cat(error_part.as_str(), notice_part.as_str());
    assert(tail@ == tail_markdown(*resp));
    match &resp.data {
        Some(d) => {
            let data_part = d.to_markdown();
            assert(call_ensures(T::to_markdown, (d,), data_part));
            let s = cat(data_part.as_str(), tail.as_str());
            assert(s@.subrange(0, s@.len() - tail@.len()) =~= data_part@);
            assert(s@.subrange(s@.len() - tail@.len(), s@.len() as int) =~= tail@);
            s
        },
        None => tail,
    }
}

} // verus!
