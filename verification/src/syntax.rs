//! Tool requests in model output. A request is an instruction that names a
//! tool and gives it an input, written between an opening and a closing
//! delimiter; inside, a separator parts the name from the input. The three
//! delimiters are configuration, not code.

use vstd::prelude::*;
use vstd::string::*;
use crate::text::{chars_of, find, find_from, find_within};

verus! {

/// The delimiters by which a tool request is recognised.
#[derive(Debug, Clone, PartialEq, Eq)]
pub struct RequestSyntax {
    pub open: String,
    pub separator: String,
    pub close: String,
}

/// What a `RequestSyntax` holds, as plain sequences of characters.
pub ghost struct SyntaxView {
    pub open: Seq<char>,
    pub separator: Seq<char>,
    pub close: Seq<char>,
}

impl SyntaxView {
    /// A syntax is usable when none of its delimiters is empty.
    pub open spec fn wf(self) -> bool {
        self.open.len() > 0 && self.separator.len() > 0 && self.close.len() > 0
    }

    /// The bracketed syntax: `[[tool:NAME|INPUT]]`.
    pub open spec fn bracketed() -> SyntaxView {
        SyntaxView { open: "[[tool:"@, separator: "|"@, close: "]]"@ }
    }
}

impl View for RequestSyntax {
    type V = SyntaxView;

    open spec fn view(&self) -> SyntaxView {
        SyntaxView { open: self.open@, separator: self.separator@, close: self.close@ }
    }
}

impl RequestSyntax {
    /// The syntax with the given delimiters.
    pub fn new(open: &str, separator: &str, close: &str) -> (s: Self)
        ensures
            s@ == (SyntaxView { open: open@, separator: separator@, close: close@ }),
    {
        RequestSyntax {
            open: open.to_owned(),
            separator: separator.to_owned(),
            close: close.to_owned(),
        }
    }

    /// The bracketed syntax: `[[tool:NAME|INPUT]]`.
    pub fn bracketed() -> (s: Self)
        ensures
            s@ == SyntaxView::bracketed(),
            s@.wf(),
    {
        proof {
            reveal_strlit("[[tool:");
            reveal_strlit("|");
            reveal_strlit("]]");
        }
        RequestSyntax::new("[[tool:", "|", "]]")
    }

    /// A copy of the syntax.
    pub fn duplicate(&self) -> (s: Self)
        ensures
            s@ == self@,
    {
        RequestSyntax {
            open: self.open.clone(),
            separator: self.separator.clone(),
            close: self.close.clone(),
        }
    }

    /// Whether the syntax is usable: none of its delimiters is empty.
    pub fn is_valid(&self) -> (r: bool)
        ensures
            r == self@.wf(),
    {
        self.open.as_str().unicode_len() > 0 && self.separator.as_str().unicode_len() > 0
            && self.close.as_str().unicode_len() > 0
    }
}

/// One instruction to call a tool.
#[derive(Debug, Clone, PartialEq, Eq)]
pub struct ToolRequest {
    pub tool_name: String,
    pub input: String,
}

/// What a `ToolRequest` holds, as plain sequences of characters.
pub ghost struct RequestView {
    pub tool_name: Seq<char>,
    pub input: Seq<char>,
}

impl View for ToolRequest {
    type V = RequestView;

    open spec fn view(&self) -> RequestView {
        RequestView { tool_name: self.tool_name@, input: self.input@ }
    }
}

/// The views of a sequence of requests, in order.
pub open spec fn request_views(s: Seq<ToolRequest>) -> Seq<RequestView> {
    Seq::new(s.len(), |i: int| s[i]@)
}

/// The request written in a block, the text between an opening and a closing
/// delimiter that spans `[start, end)` of `text`: the name runs to the first
/// separator that lies wholly inside the block and the input follows it; a
/// block without separator names a tool and gives it the empty input.
pub open spec fn request_of_block(syn: SyntaxView, text: Seq<char>, start: int, end: int)
    -> RequestView {
    match find_from(text.take(end), syn.separator, start) {
        Some(sep) => RequestView {
            tool_name: text.subrange(start, sep),
            input: text.subrange(sep + syn.separator.len(), end),
        },
        None => RequestView { tool_name: text.subrange(start, end), input: Seq::empty() },
    }
}

/// The first request of `text` at or after index `from`, with the index just
/// behind it: the block opens at the first opening delimiter and closes at the
/// first closing delimiter behind that.
pub open spec fn next_request(syn: SyntaxView, text: Seq<char>, from: int) -> Option<
    (RequestView, int),
> {
    match find_from(text, syn.open, from) {
        None => None,
        Some(open) => {
            let start = open + syn.open.len();
            match find_from(text, syn.close, start) {
                None => None,
                Some(end) => Some(
                    (request_of_block(syn, text, start, end), end + syn.close.len()),
                ),
            }
        },
    }
}

/// The requests of `text` from index `from` on, in the order written, at most
/// `limit` of them.
pub open spec fn requests_from(syn: SyntaxView, text: Seq<char>, from: int, limit: nat) -> Seq<
    RequestView,
>
    decreases limit,
{
    if limit == 0 {
        Seq::empty()
    } else {
        match next_request(syn, text, from) {
            None => Seq::empty(),
            Some((request, next)) => seq![request] + requests_from(
                syn,
                text,
                next,
                (limit - 1) as nat,
            ),
        }
    }
}

/// The requests of `text`, in the order written, at most `limit` of them.
pub open spec fn requests_in(syn: SyntaxView, text: Seq<char>, limit: nat) -> Seq<RequestView> {
    requests_from(syn, text, 0, limit)
}

/// A text in which a request is found is not empty, where the opening
/// delimiter is not.
pub proof fn lemma_requests_need_text(syn: SyntaxView, text: Seq<char>, limit: nat)
    requires
        syn.open.len() > 0,
        requests_in(syn, text, limit).len() > 0,
    ensures
        text.len() > 0,
{
    crate::text::lemma_find_from(text, syn.open, 0);
}

/// No more requests are read than the limit allows.
pub proof fn lemma_requests_bounded(syn: SyntaxView, text: Seq<char>, from: int, limit: nat)
    ensures
        requests_from(syn, text, from, limit).len() <= limit,
    decreases limit,
{
    if limit > 0 {
        match next_request(syn, text, from) {
            Some((_, next)) => {
                lemma_requests_bounded(syn, text, next, (limit - 1) as nat);
            },
            None => {},
        }
    }
}

/// Unfolds `requests_from` at its end: the requests found so far, then the
/// rest.
proof fn lemma_requests_step(
    syn: SyntaxView,
    text: Seq<char>,
    from: int,
    limit: nat,
)
    requires
        limit > 0,
    ensures
        requests_from(syn, text, from, limit) == match next_request(syn, text, from) {
            None => Seq::<RequestView>::empty(),
            Some((request, next)) => seq![request] + requests_from(
                syn,
                text,
                next,
                (limit - 1) as nat,
            ),
        },
{
}

/// Reads the tool requests out of a text, in the order written, at most
/// `limit` of them.
pub fn parse_requests(syntax: &RequestSyntax, text: &str, limit: usize) -> (found: Vec<
    ToolRequest,
>)
    ensures
        request_views(found@) == requests_in(syntax@, text@, limit as nat),
        found.len() <= limit,
{
    let hay = chars_of(text);
    let open = chars_of(syntax.open.as_str());
    let separator = chars_of(syntax.separator.as_str());
    let close = chars_of(syntax.close.as_str());
    let mut found: Vec<ToolRequest> = Vec::new();
    let mut from: usize = 0;
    while found.len() < limit
        invariant
            hay@ == text@,
            open@ == syntax@.open,
            separator@ == syntax@.separator,
            close@ == syntax@.close,
            found.len() <= limit,
            requests_in(syntax@, text@, limit as nat) == request_views(found@) + requests_from(
                syntax@,
                text@,
                from as int,
                (limit - found.len()) as nat,
            ),
        decreases limit - found.len(),
    {
        let ghost rest = (limit - found.len()) as nat;
        proof {
            lemma_requests_step(syntax@, text@, from as int, rest);
        }
        let opened = match find(&hay, &open, from) {
            Some(at) => at,
            None => {
                assert(request_views(found@) + Seq::<RequestView>::empty() =~= request_views(
                    found@,
                ));
                return found;
            },
        };
        let start = opened + open.len();
        let end = match find(&hay, &close, start) {
            Some(at) => at,
            None => {
                assert(request_views(found@) + Seq::<RequestView>::empty() =~= request_views(
                    found@,
                ));
                return found;
            },
        };
        let request = match find_within(&hay, &separator, start, end) {
            Some(sep) => ToolRequest {
                tool_name: text.substring_char(start, sep).to_owned(),
                input: text.substring_char(sep + separator.len(), end).to_owned(),
            },
            None => ToolRequest {
                tool_name: text.substring_char(start, end).to_owned(),
                input: String::new(),
            },
        };
        let ghost before = request_views(found@);
        found.push(request);
        from = end + close.len();
        assert(before + (seq![request@] + requests_from(
            syntax@,
            text@,
            from as int,
            (rest - 1) as nat,
        )) =~= request_views(found@) + requests_from(
            syntax@,
            text@,
            from as int,
            (rest - 1) as nat,
        ));
    }
    found
}

} // verus!
