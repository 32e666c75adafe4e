//! Building a user-facing error paragraph.
//!
//! An error is a list of parts — body text, a link, diagnostic detail — each
//! rendered in its own way: bodies and links as red bang blocks, details as
//! plain text, with separators that keep adjacent bang blocks connected.

use vstd::prelude::*;
use vstd::string::StringExecFns;
use crate::fmt::{bangify, bangify_spec, colorize, colorize_spec, url_spec};
use crate::strings::{chars_of, string_of, trim_chars, trim_seq};

verus! {

/// Info about a URL shown with an error.
#[derive(Debug, Clone, PartialEq)]
pub enum Url {
    Absent,
    Label { label: String, url: String },
    MoreInfo(String),
}

impl Url {
    /// The rendering: a labelled link, a documentation pointer, or nothing.
    pub open spec fn render_spec(&self) -> Seq<char> {
        match self {
            Url::Label { label, url } => label@ + ": "@ + url_spec(url@) + "\n"@,
            Url::MoreInfo(url) => "For more information, refer to the following documentation:\n"@
                + url_spec(url@) + "\n"@,
            Url::Absent => Seq::<char>::empty(),
        }
    }

    pub fn render(&self) -> (r: String)
        ensures
            r@ == self.render_spec(),
    {
        match self {
            Url::Label { label, url } => {
                let decorated = crate::fmt::url(url.as_str());
                let mut r = String::new();
                r.append(label.as_str());
                r.append(": ");
                r.append(decorated.as_str());
                r.append("\n");
                proof {
                    assert(Seq::<char>::empty() + label@ == label@);
                }
                r
            },
            Url::MoreInfo(url) => {
                let decorated = crate::fmt::url(url.as_str());
                let mut r = String::new();
                r.append("For more information, refer to the following documentation:\n");
                r.append(decorated.as_str());
                r.append("\n");
                proof {
                    assert(Seq::<char>::empty()
                        + "For more information, refer to the following documentation:\n"@
                        == "For more information, refer to the following documentation:\n"@);
                }
                r
            },
            Url::Absent => String::new(),
        }
    }
}

/// Diagnostic detail shown with an error.
#[derive(Debug, PartialEq, Clone)]
pub enum Detail {
    Absent,
    Raw(String),
    Debug(String),
    Label { label: String, details: String },
}

impl Detail {
    /// The rendering: raw text as it stands, debug output and labelled
    /// details under their heading.
    pub open spec fn render_spec(&self) -> Seq<char> {
        match self {
            Detail::Absent => Seq::<char>::empty(),
            Detail::Raw(details) => details@,
            Detail::Debug(details) => "Debug information:\n\n"@ + details@ + "\n"@,
            Detail::Label { label, details } => label@ + ":\n\n"@ + details@ + "\n"@,
        }
    }

    pub fn render(&self) -> (r: String)
        ensures
            r@ == self.render_spec(),
    {
        match self {
            Detail::Absent => String::new(),
            Detail::Raw(details) => details.clone(),
            Detail::Debug(details) => {
                let mut r = String::new();
                r.append("Debug information:\n\n");
                r.append(details.as_str());
                r.append("\n");
                proof {
                    assert(Seq::<char>::empty() + "Debug information:\n\n"@
                        == "Debug information:\n\n"@);
                }
                r
            },
            Detail::Label { label, details } => {
                let mut r = String::new();
                r.append(label.as_str());
                r.append(":\n\n");
                r.append(details.as_str());
                r.append("\n");
                proof {
                    assert(Seq::<char>::empty() + label@ == label@);
                }
                r
            },
        }
    }
}

/// Free-form body text of an error.
#[derive(Debug, PartialEq, Clone)]
pub enum Body {
    Raw(String),
}

impl Body {
    pub open spec fn render_spec(&self) -> Seq<char> {
        match self {
            Body::Raw(text) => text@,
        }
    }

    pub fn render(&self) -> (r: String)
        ensures
            r@ == self.render_spec(),
    {
        match self {
            Body::Raw(text) => text.clone(),
        }
    }
}

/// One part of an error paragraph.
#[derive(Debug, PartialEq, Clone)]
pub enum Part {
    Body(Body),
    Url(Url),
    Detail(Detail),
}

impl Part {
    pub open spec fn render_spec(&self) -> Seq<char> {
        match self {
            Part::Body(body) => body.render_spec(),
            Part::Url(url) => url.render_spec(),
            Part::Detail(details) => details.render_spec(),
        }
    }

    pub fn render(&self) -> (r: String)
        ensures
            r@ == self.render_spec(),
    {
        match self {
            Part::Body(body) => body.render(),
            Part::Url(url) => url.render(),
            Part::Detail(details) => details.render(),
        }
    }
}

/// The red color in which errors are shown.
pub open spec fn error_color_spec() -> Seq<char> {
    "\x1B[0;31m"@
}

/// One part formatted for the paragraph: bodies and links become trimmed red
/// bang blocks, details stay plain, each followed by a line break.
pub open spec fn format_part_spec(part: Part) -> Seq<char> {
    match part {
        Part::Detail(details) => trim_seq(details.render_spec()) + "\n"@,
        _ => colorize_spec(error_color_spec(), bangify_spec(trim_seq(part.render_spec()))) + "\n"@,
    }
}

/// The separator between two adjacent parts: a bare line break next to a
/// detail, a red bang line between two bang blocks.
pub open spec fn part_separator_spec(now: Part, next: Part) -> Seq<char> {
    if now is Detail || next is Detail {
        "\n"@
    } else {
        colorize_spec(error_color_spec(), bangify_spec("\n"@))
    }
}

/// The whole paragraph: the parts in order, each formatted, with the
/// separator fitting each adjacent pair between them.
pub open spec fn paragraph_spec(parts: Seq<Part>) -> Seq<char>
    decreases parts.len(),
{
    if parts.len() == 0 {
        Seq::<char>::empty()
    } else if parts.len() == 1 {
        format_part_spec(parts[0])
    } else {
        format_part_spec(parts[0]) + part_separator_spec(parts[0], parts[1]) + paragraph_spec(
            parts.skip(1),
        )
    }
}

fn format_part(part: &Part) -> (r: String)
    ensures
        r@ == format_part_spec(*part),
{
    let rendered = part.render();
    match part {
        Part::Detail(_) => {
            let rendered_chars = chars_of(rendered.as_str());
            let trimmed = trim_chars(&rendered_chars);
            let mut r = string_of(&trimmed);
            r.append("\n");
            r
        },
        _ => {
            let rendered_chars = chars_of(rendered.as_str());
            let trimmed = trim_chars(&rendered_chars);
            let trimmed_string = string_of(&trimmed);
            let banged = bangify(trimmed_string.as_str());
            let mut r = colorize("\x1B[0;31m", banged.as_str());
            r.append("\n");
            r
        },
    }
}

fn paragraph_from(parts: &Vec<Part>, start: usize) -> (r: String)
    requires
        start <= parts@.len(),
    ensures
        r@ == paragraph_spec(parts@.skip(start as int)),
    decreases parts@.len() - start,
{
    let ghost rest = parts@.skip(start as int);
    if start == parts.len() {
        proof {
            assert(rest =~~= Seq::<Part>::empty());
        }
        String::new()
    } else if start + 1 == parts.len() {
        format_part(&parts[start])
    } else {
        let mut r = format_part(&parts[start]);
        let separator_is_plain = matches!(&parts[start], Part::Detail(_)) || matches!(
            &parts[start + 1],
            Part::Detail(_),
        );
        if separator_is_plain {
            r.append("\n");
        } else {
            let banged = bangify("\n");
            let separator = colorize("\x1B[0;31m", banged.as_str());
            r.append(separator.as_str());
        }
        let tail = paragraph_from(parts, start + 1);
        r.append(tail.as_str());
        proof {
            assert(rest.skip(1) =~~= parts@.skip(start + 1));
        }
        r
    }
}

/// Builds the contents of an error for display: a header, body text, links
/// and diagnostic details, in the order they are added.
#[derive(Debug, Clone)]
pub struct ErrorBuilder {
    inner: Vec<Part>,
}

impl ErrorBuilder {
    /// The parts added so far, in order.
    pub closed spec fn parts(&self) -> Seq<Part> {
        self.inner@
    }

    pub fn new() -> (r: Self)
        ensures
            r.parts() == Seq::<Part>::empty(),
    {
        ErrorBuilder { inner: Vec::new() }
    }

    /// Adds the headline, under an `ERROR:` label.
    pub fn header(self, header: &str) -> (r: Self)
        ensures
            r.parts().len() == self.parts().len() + 1,
            r.parts().drop_last() == self.parts(),
            r.parts().last() matches Part::Body(Body::Raw(text)) && text@ == "ERROR: "@ + header@,
    {
        let mut text = String::new();
        text.append("ERROR: ");
        text.append(header);
        proof {
            assert(Seq::<char>::empty() + "ERROR: "@ == "ERROR: "@);
        }
        self.add(Part::Body(Body::Raw(text)))
    }

    /// Adds one part as it stands.
    pub fn add(self, part: Part) -> (r: Self)
        ensures
            r.parts() == self.parts().push(part),
    {
        let mut inner = self.inner;
        inner.push(part);
        ErrorBuilder { inner }
    }

    /// Adds free-form body text.
    pub fn body(self, body: &str) -> (r: Self)
        ensures
            r.parts().len() == self.parts().len() + 1,
            r.parts().drop_last() == self.parts(),
            r.parts().last() matches Part::Body(Body::Raw(text)) && text@ == body@,
    {
        let text = String::from_str(body);
        self.add(Part::Body(Body::Raw(text)))
    }

    /// Adds a URL.
    pub fn url(self, url: Url) -> (r: Self)
        ensures
            r.parts() == self.parts().push(Part::Url(url)),
    {
        self.add(Part::Url(url))
    }

    /// Adds diagnostic detail.
    pub fn detail(self, detail: Detail) -> (r: Self)
        ensures
            r.parts() == self.parts().push(Part::Detail(detail)),
    {
        self.add(Part::Detail(detail))
    }

    /// Adds detail under a `Debug information` heading.
    pub fn debug_details(self, detail: &str) -> (r: Self)
        ensures
            r.parts().len() == self.parts().len() + 1,
            r.parts().drop_last() == self.parts(),
            r.parts().last() matches Part::Detail(Detail::Debug(text)) && text@ == detail@,
    {
        let text = String::from_str(detail);
        self.add(Part::Detail(Detail::Debug(text)))
    }

    /// The whole paragraph, ready to print.
    pub fn render(&self) -> (r: String)
        ensures
            r@ == paragraph_spec(self.parts()),
    {
        let r = paragraph_from(&self.inner, 0);
        proof {
            assert(self.inner@.skip(0) =~~= self.inner@);
        }
        r
    }
}

} // verus!
