//! The lines of text that a window shows about the file it holds, and the
//! style rule for the font in which it shows the file.

use crate::encoding::InputEncoding;
use vstd::prelude::*;
use vstd::string::StringExecFns;

verus! {

/// The name under which a file is shown: its own name, or `subtitle` for a
/// file whose name cannot be shown.
pub open spec fn display_name_of(file_name: Option<&str>) -> Seq<char> {
    match file_name {
        Some(name) => name@,
        None => "subtitle"@,
    }
}

/// The title of a window that holds the file `file_name`, decoded under
/// `encoding`; the title of an empty window where there is no name.
pub open spec fn window_title_of(file_name: Option<&str>, encoding: InputEncoding) -> Seq<char> {
    match file_name {
        Some(name) => name@ + " — Persian Subtitle Fixer ("@ + encoding.spec_label() + ")"@,
        None => "Persian Subtitle Fixer — UTF-8"@,
    }
}

/// The status line after a file was opened.
pub open spec fn opened_status_of(file_name: Option<&str>, encoding: InputEncoding) -> Seq<char> {
    "Opened "@ + display_name_of(file_name) + " as "@ + encoding.spec_label()
}

/// The status line after a file was saved.
pub open spec fn saved_status_of(file_name: Option<&str>) -> Seq<char> {
    "Saved "@ + display_name_of(file_name) + " as UTF-8"@
}

/// The style rule that shows the text in the font `font`, given as a font
/// description in words.
pub open spec fn font_rule_of(font: &str) -> Seq<char> {
    "textview { font: "@ + font@ + "; }"@
}

/// The name under which a file is shown.
pub fn display_name(file_name: Option<&str>) -> (name: String)
    ensures
        name@ == display_name_of(file_name),
{
    match file_name {
        Some(name) => String::from_str(name),
        None => String::from_str("subtitle"),
    }
}

/// The title of the window.
pub fn window_title(file_name: Option<&str>, encoding: InputEncoding) -> (title: String)
    ensures
        title@ == window_title_of(file_name, encoding),
{
    match file_name {
        Some(name) => {
            let mut title = String::from_str(name);
            title.append(" — Persian Subtitle Fixer (");
            title.append(encoding.label());
            title.append(")");
            title
        },
        None => String::from_str("Persian Subtitle Fixer — UTF-8"),
    }
}

/// The status line after the file `file_name` was opened and decoded under
/// `encoding`.
pub fn opened_status(file_name: Option<&str>, encoding: InputEncoding) -> (status: String)
    ensures
        status@ == opened_status_of(file_name, encoding),
{
    let mut status = String::from_str("Opened ");
    status.append(display_name(file_name).as_str());
    status.append(" as ");
    status.append(encoding.label());
    status
}

/// The status line after the text was saved to the file `file_name`.
pub fn saved_status(file_name: Option<&str>) -> (status: String)
    ensures
        status@ == saved_status_of(file_name),
{
    let mut status = String::from_str("Saved ");
    status.append(display_name(file_name).as_str());
    status.append(" as UTF-8");
    status
}

/// The style rule that shows the text in the font `font`.
pub fn font_rule(font: &str) -> (rule: String)
    ensures
        rule@ == font_rule_of(font),
{
    let mut rule = String::from_str("textview { font: ");
    rule.append(font);
    rule.append("; }");
    rule
}

} // verus!
