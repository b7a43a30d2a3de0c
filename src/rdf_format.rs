//! Classification of RDF text into one of the serializations the store reads.

use vstd::prelude::*;
use crate::text::{
    contains_exec, contains_seq, ends_with, ends_with_exec, lines_of, lowercases_to, same_letter_ignoring_case,
    lowercases_to_exec, split_lines, starts_with, starts_with_exec, sub_chars, to_chars, trim,
    trim_bounds, views,
};

verus! {

/// The RDF serializations that ontology files are read in.
#[derive(Debug, Clone, Copy, PartialEq, Eq, Structural)]
pub enum RdfFormat {
    Turtle,
    RdfXml,
    NTriples,
    NQuads,
}

/// The extension of the last component of `path`, as `Path::extension`
/// reads it.
pub uninterp spec fn extension_of(path: Seq<char>) -> Option<Seq<char>>;

/// Relies on `std::path::Path::extension`: the extension of the path's
/// last component, if it has one; a path made from a `&str` is valid UTF-8.
#[verifier::external_body]
fn path_extension(path: &str) -> (r: Option<String>)
    ensures
        match r {
            Some(e) => extension_of(path@) == Some(e@),
            None => extension_of(path@) is None,
        },
{
    match std::path::Path::new(path).extension() {
        Some(e) => e.to_str().map(str::to_string),
        None => None,
    }
}

/// A line that N-Triples accepts in the shape tested here: blank, a
/// comment, or ending with `" ."` once trimmed.
pub open spec fn triple_like_line(l: Seq<char>) -> bool {
    let t = trim(l);
    t.len() == 0 || starts_with(t, "#"@) || ends_with(t, " ."@)
}

pub open spec fn all_lines_triple_like(content: Seq<char>) -> bool {
    forall|i: int| 0 <= i < lines_of(content).len() ==> triple_like_line(#[trigger] lines_of(content)[i])
}

pub open spec fn has_turtle_marker(content: Seq<char>) -> bool {
    starts_with(trim(content), "@prefix"@) || starts_with(trim(content), "@base"@)
        || contains_seq(content, "@prefix"@)
}

pub open spec fn has_xml_marker(content: Seq<char>) -> bool {
    starts_with(trim(content), "<?xml"@) || starts_with(trim(content), "<rdf:RDF"@)
        || contains_seq(content, "<rdf:RDF"@)
}

/// The format a file extension stands for, when the content itself decided
/// nothing.
pub open spec fn format_for_extension(content: Seq<char>, ext: Option<Seq<char>>) -> RdfFormat {
    match ext {
        None => RdfFormat::Turtle,
        Some(e) => if lowercases_to(e, "ttl"@) || lowercases_to(e, "turtle"@) {
            RdfFormat::Turtle
        } else if lowercases_to(e, "owl"@) || lowercases_to(e, "rdf"@) || lowercases_to(e, "xml"@) {
            if contains_seq(content, "<?xml"@) || contains_seq(content, "<rdf:RDF"@) {
                RdfFormat::RdfXml
            } else {
                RdfFormat::Turtle
            }
        } else if lowercases_to(e, "nt"@) {
            RdfFormat::NTriples
        } else if lowercases_to(e, "nq"@) {
            RdfFormat::NQuads
        } else {
            RdfFormat::Turtle
        },
    }
}

/// The format of `content`, read from a file whose extension is `ext`: the
/// first of these that holds decides.
pub open spec fn detect_spec(content: Seq<char>, ext: Option<Seq<char>>) -> RdfFormat {
    if has_turtle_marker(content) {
        RdfFormat::Turtle
    } else if has_xml_marker(content) {
        RdfFormat::RdfXml
    } else if all_lines_triple_like(content) {
        RdfFormat::NTriples
    } else {
        format_for_extension(content, ext)
    }
}

/// The format depends on the content and the path alone.
pub proof fn detection_is_deterministic(
    content: Seq<char>,
    path: Seq<char>,
    same_content: Seq<char>,
    same_path: Seq<char>,
)
    requires
        content == same_content,
        path == same_path,
    ensures
        detect_spec(content, extension_of(path)) == detect_spec(same_content, extension_of(same_path)),
{
}

/// Content holding `@prefix` anywhere is Turtle, whatever the extension.
pub proof fn prefix_marker_means_turtle(content: Seq<char>, ext: Option<Seq<char>>)
    requires
        contains_seq(content, "@prefix"@),
    ensures
        detect_spec(content, ext) == RdfFormat::Turtle,
{
}

/// Content with no Turtle or RDF/XML marker and a line that is neither
/// blank, nor a comment, nor ends with `" ."`, from a file with the
/// extension `nq`, is N-Quads.
pub proof fn nq_extension_means_nquads(content: Seq<char>, i: int)
    requires
        !has_turtle_marker(content),
        !has_xml_marker(content),
        0 <= i < lines_of(content).len(),
        !triple_like_line(lines_of(content)[i]),
    ensures
        detect_spec(content, Some("nq"@)) == RdfFormat::NQuads,
{
    reveal_strlit("nq");
    reveal_strlit("nt");
    reveal_strlit("ttl");
    reveal_strlit("turtle");
    reveal_strlit("owl");
    reveal_strlit("rdf");
    reveal_strlit("xml");
    let e = "nq"@;
    assert(!lowercases_to(e, "nt"@)) by {
        assert(!same_letter_ignoring_case(e[1], "nt"@[1]));
    }
    assert(lowercases_to(e, "nq"@));
}

fn triple_like_line_exec(l: &Vec<char>) -> (r: bool)
    ensures
        r == triple_like_line(l@),
{
    let (a, b) = trim_bounds(l, 0, l.len());
    assert(l@.subrange(0, l.len() as int) =~= l@);
    let t = sub_chars(l, a, b);
    t.len() == 0 || starts_with_exec(&t, &to_chars("#")) || ends_with_exec(&t, &to_chars(" ."))
}

fn all_lines_triple_like_exec(c: &Vec<char>) -> (r: bool)
    ensures
        r == all_lines_triple_like(c@),
{
    let lines = split_lines(c);
    let mut i: usize = 0;
    while i < lines.len()
        invariant
            i <= lines.len(),
            views(lines@) == lines_of(c@),
            forall|j: int| 0 <= j < i ==> triple_like_line(#[trigger] lines_of(c@)[j]),
        decreases lines.len() - i,
    {
        assert(views(lines@)[i as int] == lines@[i as int]@);
        if !triple_like_line_exec(&lines[i]) {
            return false;
        }
        i += 1;
    }
    true
}

fn format_for_extension_exec(c: &Vec<char>, ext: Option<String>) -> (r: RdfFormat)
    ensures
        r == format_for_extension(
            c@,
            match ext {
                Some(e) => Some(e@),
                None => None,
            },
        ),
{
    match ext {
        None => RdfFormat::Turtle,
        Some(e) => {
            let e = to_chars(e.as_str());
            if lowercases_to_exec(&e, &to_chars("ttl")) || lowercases_to_exec(&e, &to_chars("turtle")) {
                RdfFormat::Turtle
            } else if lowercases_to_exec(&e, &to_chars("owl")) || lowercases_to_exec(&e, &to_chars("rdf"))
                || lowercases_to_exec(&e, &to_chars("xml")) {
                if contains_exec(c, &to_chars("<?xml")) || contains_exec(c, &to_chars("<rdf:RDF")) {
                    RdfFormat::RdfXml
                } else {
                    RdfFormat::Turtle
                }
            } else if lowercases_to_exec(&e, &to_chars("nt")) {
                RdfFormat::NTriples
            } else if lowercases_to_exec(&e, &to_chars("nq")) {
                RdfFormat::NQuads
            } else {
                RdfFormat::Turtle
            }
        },
    }
}

/// Classifies `content` given the extension of the file it was read from
/// (`None` where the path has none).
pub fn detect_format_with_extension(content: &str, extension: Option<String>) -> (r: RdfFormat)
    ensures
        r == detect_spec(
            content@,
            match extension {
                Some(e) => Some(e@),
                None => None,
            },
        ),
{
    let c = to_chars(content);
    let (a, b) = trim_bounds(&c, 0, c.len());
    assert(c@.subrange(0, c.len() as int) =~= c@);
    let t = sub_chars(&c, a, b);
    if starts_with_exec(&t, &to_chars("@prefix")) || starts_with_exec(&t, &to_chars("@base"))
        || contains_exec(&c, &to_chars("@prefix")) {
        RdfFormat::Turtle
    } else if starts_with_exec(&t, &to_chars("<?xml")) || starts_with_exec(&t, &to_chars("<rdf:RDF"))
        || contains_exec(&c, &to_chars("<rdf:RDF")) {
        RdfFormat::RdfXml
    } else if all_lines_triple_like_exec(&c) {
        RdfFormat::NTriples
    } else {
        format_for_extension_exec(&c, extension)
    }
}

/// Classifies the RDF text `content` read from `file_path`.
pub fn detect_rdf_format(content: &str, file_path: &str) -> (r: RdfFormat)
    ensures
        r == detect_spec(content@, extension_of(file_path@)),
{
    detect_format_with_extension(content, path_extension(file_path))
}

} // verus!
