//! Decorating build output.
//!
//! Every decoration is a pure function from text to text: colors are applied
//! line by line so that a consumer that prefixes each line (as a remote build
//! log does) never inherits a color, nested colors are restored after an
//! inner reset, and redundant codes are cleaned up.

use vstd::prelude::*;
use vstd::string::StringExecFns;
use crate::strings::{
    append_chars,
    chars_of,
    is_blank,
    join_seq,
    join_with,
    lemma_views_of_push,
    replace_all,
    replace_seq,
    split_on,
    split_seq,
    string_of,
    views_of,
};

pub mod time;

verus! {

/// One line of `body` colorized: an inner reset switches back to `color`,
/// the line is wrapped in `color` ... reset, and redundant code pairs are
/// collapsed.
pub open spec fn colorize_line_spec(color: Seq<char>, line: Seq<char>) -> Seq<char> {
    let reset = "\x1B[0m"@;
    let restored = replace_seq(line, reset, reset + color);
    let wrapped = color + restored + reset;
    let cleaned = replace_seq(wrapped, reset + color + reset, reset);
    replace_seq(cleaned, color + color, color)
}

/// Each line colorized on its own.
pub open spec fn colorized_lines(color: Seq<char>, lines: Seq<Seq<char>>) -> Seq<Seq<char>> {
    lines.map_values(|line: Seq<char>| colorize_line_spec(color, line))
}

/// `body` colorized: each line on its own, so the color never crosses a line
/// break.
pub open spec fn colorize_spec(color: Seq<char>, body: Seq<char>) -> Seq<char> {
    join_seq(colorized_lines(color, split_seq(body, '\n')), seq!['\n'])
}

/// Colorizes `body` with `color`, line by line, preserving nested
/// color/reset pairs and clearing before every newline.
pub fn colorize(color: &str, body: &str) -> (r: String)
    ensures
        r@ == colorize_spec(color@, body@),
{
    let color_chars = chars_of(color);
    let body_chars = chars_of(body);
    let reset = chars_of("\x1B[0m");
    let mut reset_color: Vec<char> = Vec::new();
    append_chars(&mut reset_color, &reset);
    append_chars(&mut reset_color, &color_chars);
    let mut reset_color_reset: Vec<char> = Vec::new();
    append_chars(&mut reset_color_reset, &reset);
    append_chars(&mut reset_color_reset, &color_chars);
    append_chars(&mut reset_color_reset, &reset);
    let mut color_color: Vec<char> = Vec::new();
    append_chars(&mut color_color, &color_chars);
    append_chars(&mut color_color, &color_chars);

    let lines = split_on(&body_chars, '\n');
    let mut mapped: Vec<Vec<char>> = Vec::new();
    let mut i: usize = 0;
    proof {
        assert(views_of(mapped@) =~~= colorized_lines(color@, views_of(lines@).take(0)));
    }
    while i < lines.len()
        invariant
            i <= lines@.len(),
            views_of(lines@) == split_seq(body@, '\n'),
            reset_color@ == "\x1B[0m"@ + color@,
            reset_color_reset@ == "\x1B[0m"@ + color@ + "\x1B[0m"@,
            color_color@ == color@ + color@,
            color_chars@ == color@,
            reset@ == "\x1B[0m"@,
            views_of(mapped@) == colorized_lines(color@, views_of(lines@).take(i as int)),
        decreases lines@.len() - i,
    {
        let restored = replace_all(&lines[i], &reset, &reset_color);
        let mut wrapped: Vec<char> = Vec::new();
        append_chars(&mut wrapped, &color_chars);
        append_chars(&mut wrapped, &restored);
        append_chars(&mut wrapped, &reset);
        proof {
            assert(wrapped@ =~= color_chars@ + restored@ + reset@);
        }
        let cleaned = replace_all(&wrapped, &reset_color_reset, &reset);
        let line = replace_all(&cleaned, &color_color, &color_chars);
        let ghost old_mapped = mapped@;
        mapped.push(line);
        proof {
            lemma_views_of_push(old_mapped, mapped@[mapped@.len() - 1]);
            assert(views_of(lines@)[i as int] == lines@[i as int]@);
            assert(line@ == colorize_line_spec(color@, views_of(lines@)[i as int]));
            assert(colorized_lines(color@, views_of(lines@).take(i + 1)) =~~= colorized_lines(
                color@,
                views_of(lines@).take(i as int),
            ).push(colorize_line_spec(color@, views_of(lines@)[i as int])));
        }
        i = i + 1;
    }
    proof {
        assert(views_of(lines@).take(lines@.len() as int) =~~= views_of(lines@));
    }
    let mut newline: Vec<char> = Vec::new();
    newline.push('\n');
    proof {
        assert(newline@ =~= seq!['\n']);
    }
    let joined = join_with(&mapped, &newline);
    string_of(&joined)
}

/// One line prefixed: the bare prefix on a blank line, otherwise the prefix,
/// the separator and the line.
pub open spec fn prefixed_line(prepend: Seq<char>, separator: Seq<char>, section: Seq<char>) -> Seq<
    char,
> {
    if is_blank(section) {
        prepend
    } else {
        prepend + separator + section
    }
}

/// Each line prefixed on its own.
pub open spec fn prefixed_lines(
    prepend: Seq<char>,
    separator: Seq<char>,
    lines: Seq<Seq<char>>,
) -> Seq<Seq<char>> {
    lines.map_values(|section: Seq<char>| prefixed_line(prepend, separator, section))
}

/// Every line of `contents` prefixed: a blank document becomes the prefix and
/// a line break, a blank line becomes the bare prefix, and any other line
/// gets the prefix and the separator in front.
pub open spec fn prepend_each_line_spec(
    prepend: Seq<char>,
    separator: Seq<char>,
    contents: Seq<char>,
) -> Seq<char> {
    if is_blank(contents) {
        prepend + "\n"@
    } else {
        join_seq(prefixed_lines(prepend, separator, split_seq(contents, '\n')), seq!['\n'])
    }
}

/// Ensures every line starts with `prepend`.
pub fn prepend_each_line(prepend: &str, separator: &str, contents: &str) -> (r: String)
    ensures
        r@ == prepend_each_line_spec(prepend@, separator@, contents@),
{
    let prepend_chars = chars_of(prepend);
    let separator_chars = chars_of(separator);
    let contents_chars = chars_of(contents);
    if crate::strings::blank(&contents_chars) {
        let mut r = String::new();
        r.append(prepend);
        r.append("\n");
        proof {
            assert(Seq::<char>::empty() + prepend@ == prepend@);
        }
        return r;
    }
    let lines = split_on(&contents_chars, '\n');
    let mut mapped: Vec<Vec<char>> = Vec::new();
    let mut i: usize = 0;
    proof {
        assert(views_of(mapped@) =~~= prefixed_lines(prepend@, separator@, views_of(lines@).take(0)));
    }
    while i < lines.len()
        invariant
            i <= lines@.len(),
            views_of(lines@) == split_seq(contents@, '\n'),
            prepend_chars@ == prepend@,
            separator_chars@ == separator@,
            views_of(mapped@) == prefixed_lines(prepend@, separator@, views_of(lines@).take(i as int)),
        decreases lines@.len() - i,
    {
        let mut line: Vec<char> = Vec::new();
        append_chars(&mut line, &prepend_chars);
        if !crate::strings::blank(&lines[i]) {
            append_chars(&mut line, &separator_chars);
            append_chars(&mut line, &lines[i]);
            proof {
                assert(line@ =~= prepend_chars@ + separator_chars@ + lines@[i as int]@);
            }
        } else {
            proof {
                assert(line@ =~= prepend_chars@);
            }
        }
        let ghost old_mapped = mapped@;
        mapped.push(line);
        proof {
            lemma_views_of_push(old_mapped, mapped@[mapped@.len() - 1]);
            assert(views_of(lines@)[i as int] == lines@[i as int]@);
            assert(line@ == prefixed_line(prepend@, separator@, views_of(lines@)[i as int]));
            assert(prefixed_lines(prepend@, separator@, views_of(lines@).take(i + 1))
                =~~= prefixed_lines(prepend@, separator@, views_of(lines@).take(i as int)).push(
                prefixed_line(prepend@, separator@, views_of(lines@)[i as int]),
            ));
        }
        i = i + 1;
    }
    proof {
        assert(views_of(lines@).take(lines@.len() as int) =~~= views_of(lines@));
    }
    let mut newline: Vec<char> = Vec::new();
    newline.push('\n');
    proof {
        assert(newline@ =~= seq!['\n']);
    }
    let joined = join_with(&mapped, &newline);
    string_of(&joined)
}

/// Every line prefixed with a bang, as warnings and errors are shown.
pub open spec fn bangify_spec(body: Seq<char>) -> Seq<char> {
    prepend_each_line_spec("!"@, " "@, body)
}

/// Adds a `!` in front of every line.
pub fn bangify(body: &str) -> (r: String)
    ensures
        r@ == bangify_spec(body@),
{
    prepend_each_line("!", " ", body)
}

/// A URL's decoration.
pub open spec fn url_spec(contents: Seq<char>) -> Seq<char> {
    colorize_spec("\x1B[0;36m"@, contents)
}

/// Decorates a URL.
pub fn url(contents: &str) -> (r: String)
    ensures
        r@ == url_spec(contents@),
{
    colorize("\x1B[0;36m", contents)
}

/// Decorates a derived or user-configured value.
pub open spec fn value_spec(contents: Seq<char>) -> Seq<char> {
    "`"@ + colorize_spec("\x1B[0;33m"@, contents) + "`"@
}

pub fn value(contents: &str) -> (r: String)
    ensures
        r@ == value_spec(contents@),
{
    let colorized = colorize("\x1B[0;33m", contents);
    let mut r = String::new();
    r.append("`");
    r.append(colorized.as_str());
    r.append("`");
    proof {
        assert(Seq::<char>::empty() + "`"@ == "`"@);
    }
    r
}

/// Decorates a command being run, i.e. `bundle install`.
pub open spec fn command_spec(contents: Seq<char>) -> Seq<char> {
    value_spec(colorize_spec("\x1B[1;36m"@, contents))
}

pub fn command(contents: &str) -> (r: String)
    ensures
        r@ == command_spec(contents@),
{
    let inner = colorize("\x1B[1;36m", contents);
    value(inner.as_str())
}

/// Decorates additional information.
pub open spec fn details_spec(contents: Seq<char>) -> Seq<char> {
    "("@ + contents + ")"@
}

pub fn details(contents: &str) -> (r: String)
    ensures
        r@ == details_spec(contents@),
{
    let mut r = String::new();
    r.append("(");
    r.append(contents);
    r.append(")");
    proof {
        assert(Seq::<char>::empty() + "("@ == "("@);
    }
    r
}

/// Decorates a buildpack's name as the top-level heading.
pub open spec fn header_spec(contents: Seq<char>) -> Seq<char> {
    colorize_spec("\x1B[1;35m"@, "\n# "@ + contents)
}

pub fn header(contents: &str) -> (r: String)
    ensures
        r@ == header_spec(contents@),
{
    let mut titled = String::new();
    titled.append("\n# ");
    titled.append(contents);
    proof {
        assert(Seq::<char>::empty() + "\n# "@ == "\n# "@);
    }
    colorize("\x1B[1;35m", titled.as_str())
}

/// One section line of build output.
pub open spec fn section_spec(topic: Seq<char>) -> Seq<char> {
    "- "@ + topic
}

pub fn section(topic: &str) -> (r: String)
    ensures
        r@ == section_spec(topic@),
{
    let mut r = String::new();
    r.append("- ");
    r.append(topic);
    proof {
        assert(Seq::<char>::empty() + "- "@ == "- "@);
    }
    r
}

/// One step line of build output, indented under its section.
pub open spec fn step_spec(contents: Seq<char>) -> Seq<char> {
    "  - "@ + contents
}

pub fn step(contents: &str) -> (r: String)
    ensures
        r@ == step_spec(contents@),
{
    let mut r = String::new();
    r.append("  - ");
    r.append(contents);
    proof {
        assert(Seq::<char>::empty() + "  - "@ == "  - "@);
    }
    r
}

/// The opening of a background progress timer.
pub fn background_timer_start() -> (r: String)
    ensures
        r@ == colorize_spec("\x1B[2;1m"@, " ."@),
{
    colorize("\x1B[2;1m", " .")
}

/// One tick of a background progress timer.
pub fn background_timer_tick() -> (r: String)
    ensures
        r@ == colorize_spec("\x1B[2;1m"@, "."@),
{
    colorize("\x1B[2;1m", ".")
}

/// The closing of a background progress timer.
pub fn background_timer_end() -> (r: String)
    ensures
        r@ == colorize_spec("\x1B[2;1m"@, ". "@),
{
    colorize("\x1B[2;1m", ". ")
}

/// Important information, shown to the user in a bang block.
pub fn important(contents: &str) -> (r: String)
    ensures
        r@ == colorize_spec("\x1B[0;36m"@, bangify_spec(contents@)),
{
    let banged = bangify(contents);
    colorize("\x1B[0;36m", banged.as_str())
}

/// A warning, shown to the user in a bang block.
pub fn warn(contents: &str) -> (r: String)
    ensures
        r@ == colorize_spec("\x1B[0;33m"@, bangify_spec(contents@)),
{
    let banged = bangify(contents);
    colorize("\x1B[0;33m", banged.as_str())
}

/// An error, shown to the user in a bang block.
pub fn error(contents: &str) -> (r: String)
    ensures
        r@ == colorize_spec("\x1B[0;31m"@, bangify_spec(contents@)),
{
    let banged = bangify(contents);
    colorize("\x1B[0;31m", banged.as_str())
}

/// An inline help block with a `Help:` label.
pub open spec fn help_spec(contents: Seq<char>) -> Seq<char> {
    colorize_spec("\x1B[0;36m"@, bangify_spec("Help: "@ + contents))
}

pub fn help(contents: &str) -> (r: String)
    ensures
        r@ == help_spec(contents@),
{
    let mut labelled = String::new();
    labelled.append("Help: ");
    labelled.append(contents);
    proof {
        assert(Seq::<char>::empty() + "Help: "@ == "Help: "@);
    }
    let banged = bangify(labelled.as_str());
    colorize("\x1B[0;36m", banged.as_str())
}

/// The indent put in front of streamed command output, as bytes.
pub open spec fn cmd_indent_spec() -> Seq<u8> {
    seq![32u8, 32u8, 32u8, 32u8, 32u8, 32u8]
}

/// Indents one line of streamed command output.
pub fn cmd_stream_format(input: Vec<u8>) -> (r: Vec<u8>)
    ensures
        r@ == cmd_indent_spec() + input@,
{
    let mut r: Vec<u8> = Vec::new();
    let mut i: usize = 0;
    while i < 6
        invariant
            i <= 6,
            r@ =~= cmd_indent_spec().take(i as int),
        decreases 6 - i,
    {
        r.push(32u8);
        proof {
            assert(r@ =~= cmd_indent_spec().take(i + 1));
        }
        i = i + 1;
    }
    proof {
        assert(cmd_indent_spec().take(6) =~= cmd_indent_spec());
    }
    let mut j: usize = 0;
    while j < input.len()
        invariant
            j <= input@.len(),
            r@ == cmd_indent_spec() + input@.take(j as int),
        decreases input@.len() - j,
    {
        r.push(input[j]);
        proof {
            assert(r@ =~= cmd_indent_spec() + input@.take(j + 1));
        }
        j = j + 1;
    }
    proof {
        assert(cmd_indent_spec() + input@.take(input@.len() as int) =~= cmd_indent_spec()
            + input@);
    }
    r
}

/// Captured command output framed by blank lines, every line indented.
/// Each line indented on its own.
pub open spec fn indented_lines(lines: Seq<Seq<char>>) -> Seq<Seq<char>> {
    lines.map_values(|line: Seq<char>| "      "@ + line)
}

pub open spec fn cmd_output_format_spec(contents: Seq<char>) -> Seq<char> {
    "\n"@ + join_seq(indented_lines(split_seq(contents, '\n')), seq!['\n']) + "\n"@
}

/// Like `cmd_stream_format` but for text already captured.
pub fn cmd_output_format(contents: &str) -> (r: String)
    ensures
        r@ == cmd_output_format_spec(contents@),
{
    let contents_chars = chars_of(contents);
    let indent = chars_of("      ");
    let lines = split_on(&contents_chars, '\n');
    let mut mapped: Vec<Vec<char>> = Vec::new();
    let mut i: usize = 0;
    proof {
        assert(views_of(mapped@) =~~= indented_lines(views_of(lines@).take(0)));
    }
    while i < lines.len()
        invariant
            i <= lines@.len(),
            views_of(lines@) == split_seq(contents@, '\n'),
            indent@ == "      "@,
            views_of(mapped@) == indented_lines(views_of(lines@).take(i as int)),
        decreases lines@.len() - i,
    {
        let mut line: Vec<char> = Vec::new();
        append_chars(&mut line, &indent);
        append_chars(&mut line, &lines[i]);
        proof {
            assert(line@ =~= indent@ + lines@[i as int]@);
        }
        let ghost old_mapped = mapped@;
        mapped.push(line);
        proof {
            lemma_views_of_push(old_mapped, mapped@[mapped@.len() - 1]);
            assert(views_of(lines@)[i as int] == lines@[i as int]@);
            assert(line@ == "      "@ + views_of(lines@)[i as int]);
            assert(indented_lines(views_of(lines@).take(i + 1)) =~~= indented_lines(
                views_of(lines@).take(i as int),
            ).push("      "@ + views_of(lines@)[i as int]));
        }
        i = i + 1;
    }
    proof {
        assert(views_of(lines@).take(lines@.len() as int) =~~= views_of(lines@));
    }
    let mut newline: Vec<char> = Vec::new();
    newline.push('\n');
    proof {
        assert(newline@ =~= seq!['\n']);
    }
    let joined = join_with(&mapped, &newline);
    let body = string_of(&joined);
    let mut r = String::new();
    r.append("\n");
    r.append(body.as_str());
    r.append("\n");
    proof {
        assert(Seq::<char>::empty() + "\n"@ == "\n"@);
    }
    r
}

/// `contents` with every one of the seven color codes removed, in the order
/// they are declared.
pub open spec fn strip_control_codes_spec(contents: Seq<char>) -> Seq<char> {
    let no_red = replace_seq(contents, "\x1B[0;31m"@, Seq::<char>::empty());
    let no_yellow = replace_seq(no_red, "\x1B[0;33m"@, Seq::<char>::empty());
    let no_cyan = replace_seq(no_yellow, "\x1B[0;36m"@, Seq::<char>::empty());
    let no_bold_cyan = replace_seq(no_cyan, "\x1B[1;36m"@, Seq::<char>::empty());
    let no_bold_purple = replace_seq(no_bold_cyan, "\x1B[1;35m"@, Seq::<char>::empty());
    let no_dim = replace_seq(no_bold_purple, "\x1B[2;1m"@, Seq::<char>::empty());
    replace_seq(no_dim, "\x1B[0m"@, Seq::<char>::empty())
}

/// Removes the color codes this module writes.
pub fn strip_control_codes(contents: &str) -> (r: String)
    ensures
        r@ == strip_control_codes_spec(contents@),
{
    let empty: Vec<char> = Vec::new();
    let mut text = chars_of(contents);
    let code = chars_of("\x1B[0;31m");
    text = replace_all(&text, &code, &empty);
    let code = chars_of("\x1B[0;33m");
    text = replace_all(&text, &code, &empty);
    let code = chars_of("\x1B[0;36m");
    text = replace_all(&text, &code, &empty);
    let code = chars_of("\x1B[1;36m");
    text = replace_all(&text, &code, &empty);
    let code = chars_of("\x1B[1;35m");
    text = replace_all(&text, &code, &empty);
    let code = chars_of("\x1B[2;1m");
    text = replace_all(&text, &code, &empty);
    let code = chars_of("\x1B[0m");
    text = replace_all(&text, &code, &empty);
    string_of(&text)
}

} // verus!
