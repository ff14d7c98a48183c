//! Link and message-line helpers for the cache's consumers.

use vstd::prelude::*;
use crate::model::Message;

verus! {

/// Whether `prefix` is an initial run of `s`.
pub open spec fn is_prefix_of(prefix: Seq<char>, s: Seq<char>) -> bool {
    prefix.len() <= s.len() && s.subrange(0, prefix.len() as int) == prefix
}

/// Whether `suffix` is a final run of `s`.
pub open spec fn is_suffix_of(suffix: Seq<char>, s: Seq<char>) -> bool {
    suffix.len() <= s.len() && s.subrange(s.len() - suffix.len(), s.len() as int) == suffix
}

fn str_starts_with(s: &str, prefix: &str) -> (r: bool)
    ensures
        r == is_prefix_of(prefix@, s@),
{
    let n = prefix.unicode_len();
    if n > s.unicode_len() {
        return false;
    }
    let mut i: usize = 0;
    while i < n
        invariant
            i <= n,
            n == prefix@.len(),
            n <= s@.len(),
            forall|j: int| 0 <= j < i ==> s@[j] == prefix@[j],
        decreases n - i,
    {
        if s.get_char(i) != prefix.get_char(i) {
            proof {
                assert(s@.subrange(0, n as int)[i as int] == s@[i as int]);
            }
            return false;
        }
        i += 1;
    }
    proof {
        assert(s@.subrange(0, n as int) =~= prefix@);
    }
    true
}

fn str_ends_with(s: &str, suffix: &str) -> (r: bool)
    ensures
        r == is_suffix_of(suffix@, s@),
{
    let n = suffix.unicode_len();
    let m = s.unicode_len();
    if n > m {
        return false;
    }
    let mut i: usize = 0;
    while i < n
        invariant
            i <= n,
            n == suffix@.len(),
            m == s@.len(),
            n <= m,
            forall|j: int| 0 <= j < i ==> s@[m - n + j] == suffix@[j],
        decreases n - i,
    {
        if s.get_char(m - n + i) != suffix.get_char(i) {
            proof {
                assert(s@.subrange(m - n, m as int)[i as int] == s@[m - n + i]);
            }
            return false;
        }
        i += 1;
    }
    proof {
        assert(s@.subrange(m - n, m as int) =~= suffix@);
    }
    true
}

/// Index of the first query marker in a link, or -1 if none.
pub open spec fn first_question(s: Seq<char>) -> int
    decreases s.len(),
{
    if s.len() == 0 {
        -1
    } else if s.first() == '?' {
        0
    } else if first_question(s.drop_first()) == -1 {
        -1
    } else {
        first_question(s.drop_first()) + 1
    }
}

proof fn lemma_first_question_at(s: Seq<char>, i: int)
    requires
        0 <= i < s.len(),
        s[i] == '?',
        forall|j: int| 0 <= j < i ==> s[j] != '?',
    ensures
        first_question(s) == i,
    decreases s.len(),
{
    if i > 0 {
        lemma_first_question_at(s.drop_first(), i - 1);
    }
}

proof fn lemma_first_question_absent(s: Seq<char>)
    requires
        forall|j: int| 0 <= j < s.len() ==> s[j] != '?',
    ensures
        first_question(s) == -1,
    decreases s.len(),
{
    if s.len() > 0 {
        lemma_first_question_absent(s.drop_first());
    }
}

/// A link cut at its first query marker; a link without one is unchanged.
pub open spec fn stripped_link(s: Seq<char>) -> Seq<char> {
    if first_question(s) == -1 {
        s
    } else {
        s.subrange(0, first_question(s))
    }
}

/// Cuts the query parameters off a link: everything from the first query
/// marker on is dropped, and a link without one is returned unchanged.
pub fn strip_parameters(link: String) -> (r: String)
    ensures
        r@ == stripped_link(link@),
{
    let s = link.as_str();
    let m = s.unicode_len();
    let mut i: usize = 0;
    while i < m && s.get_char(i) != '?'
        invariant
            i <= m,
            m == s@.len(),
            forall|j: int| 0 <= j < i ==> s@[j] != '?',
        decreases m - i,
    {
        i += 1;
    }
    if i == m {
        proof {
            lemma_first_question_absent(link@);
        }
        link
    } else {
        proof {
            lemma_first_question_at(link@, i as int);
        }
        let prefix = s.substring_char(0, i);
        prefix.to_owned()
    }
}

/// Whether the link points into one of the two content-delivery domains
/// that are trusted for inline rendering.
pub fn is_domain_trusted(link: &String) -> (r: bool)
    ensures
        r == (is_prefix_of("https://cdn.discordapp.com"@, link@) || is_prefix_of(
            "https://media.tenor.com"@,
            link@,
        )),
{
    str_starts_with(link.as_str(), "https://cdn.discordapp.com") || str_starts_with(
        link.as_str(),
        "https://media.tenor.com",
    )
}

/// Whether the link names one of the image formats that can be rendered
/// inline.
pub fn is_supported_media(link: &String) -> (r: bool)
    ensures
        r == (is_suffix_of("png"@, link@) || is_suffix_of("jpg"@, link@) || is_suffix_of(
            "jpeg"@,
            link@,
        ) || is_suffix_of("gif"@, link@)),
{
    str_ends_with(link.as_str(), "png") || str_ends_with(link.as_str(), "jpg") || str_ends_with(
        link.as_str(),
        "jpeg",
    ) || str_ends_with(link.as_str(), "gif")
}

/// The one-line rendering of a message without attachment handling: the
/// author's name in brackets, then the body if there is one.
pub open spec fn formatted_no_attachments(m: Message) -> Seq<char> {
    if m.content@.len() == 0 {
        "["@ + m.author_name@ + "]"@
    } else {
        "["@ + m.author_name@ + "] "@ + m.content@
    }
}

pub fn format_message_no_attachments(msg: &Message) -> (r: String)
    ensures
        r@ == formatted_no_attachments(*msg),
{
    let mut out = String::new();
    out.append("[");
    out.append(msg.author_name.as_str());
    if msg.content.as_str().is_empty() {
        out.append("]");
        proof {
            assert(out@ =~= formatted_no_attachments(*msg));
        }
    } else {
        out.append("] ");
        out.append(msg.content.as_str());
        proof {
            assert(out@ =~= formatted_no_attachments(*msg));
        }
    }
    out
}

/// The one-line rendering of a message: the author's name in brackets,
/// then the body if there is one, then the first attachment's link —
/// stripped of query parameters — if there is one.
pub open spec fn formatted_message(m: Message) -> Seq<char> {
    if m.content@.len() > 0 {
        if m.attachment_urls@.len() == 0 {
            "["@ + m.author_name@ + "] "@ + m.content@
        } else {
            "["@ + m.author_name@ + "] "@ + m.content@ + " "@ + stripped_link(
                m.attachment_urls@[0]@,
            )
        }
    } else {
        if m.attachment_urls@.len() == 0 {
            "["@ + m.author_name@ + "]"@
        } else {
            "["@ + m.author_name@ + "] "@ + stripped_link(m.attachment_urls@[0]@)
        }
    }
}

pub fn format_message(msg: &Message) -> (r: String)
    ensures
        r@ == formatted_message(*msg),
{
    let mut out = String::new();
    out.append("[");
    out.append(msg.author_name.as_str());
    if !msg.content.as_str().is_empty() {
        out.append("] ");
        out.append(msg.content.as_str());
        if msg.attachment_urls.len() > 0 {
            let link = strip_parameters(msg.attachment_urls[0].clone());
            out.append(" ");
            out.append(link.as_str());
        }
    } else {
        if msg.attachment_urls.len() > 0 {
            out.append("] ");
            let link = strip_parameters(msg.attachment_urls[0].clone());
            out.append(link.as_str());
        } else {
            out.append("]");
        }
    }
    proof {
        assert(out@ =~= formatted_message(*msg));
    }
    out
}

} // verus!
