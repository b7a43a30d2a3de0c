//! Derives a domain configuration from a schema reference and the text of
//! the domain ontology, by the comment-annotation convention:
//! `rdfs:comment "..."` gives the description, `# Transaction type: NAME`
//! adds a transaction type and `# Validation rule: NAME=VALUE` sets a rule.

use vstd::prelude::*;
use crate::domain_config::{add_type, str_views, DomainConfig};
use crate::schema::OntologyConfig;
use crate::text::{
    find_exec, find_from, lemma_find_from_bounds, lines_of, split_lines, string_of, to_chars, trim, trim_bounds, views,
};

verus! {

/// `r` is the domain configuration of the domain `domain_name` whose
/// ontology text is `content` (`None` where it could not be read).
pub open spec fn is_loaded_config(r: DomainConfig, domain_name: Seq<char>, content: Option<Seq<char>>) -> bool {
    &&& r.domain_name@ == domain_name
    &&& match content {
        None => {
            &&& r.description@ == default_description(domain_name)
            &&& r.types() == standard_types()
            &&& r.rules() == Map::<Seq<char>, Seq<char>>::empty()
        },
        Some(c) => {
            &&& r.description@ == match described(c) {
                Some(d) => d,
                None => default_description(domain_name),
            }
            &&& r.types() == scan_types(standard_types(), lines_of(c))
            &&& r.rules() == scan_rules(Map::empty(), lines_of(c))
        },
    }
}

/// The transaction types every domain supports.
pub open spec fn standard_types() -> Seq<Seq<char>> {
    seq![
        "Production"@,
        "Processing"@,
        "Transport"@,
        "Quality"@,
        "Transfer"@,
        "Environmental"@,
        "Compliance"@,
        "Governance"@,
    ]
}

pub open spec fn type_marker() -> Seq<char> {
    "# Transaction type:"@
}

pub open spec fn rule_marker() -> Seq<char> {
    "# Validation rule:"@
}

/// The text of `l` after the occurrence of `m` at `p`, up to the next
/// occurrence of `m` or the end of `l`.
pub open spec fn segment_after(l: Seq<char>, m: Seq<char>, p: int) -> Seq<char> {
    let s = p + m.len();
    match find_from(l, m, s) {
        Some(e) => l.subrange(s, e),
        None => l.subrange(s, l.len() as int),
    }
}

/// The transaction type a line declares, if it declares one.
pub open spec fn line_type(l: Seq<char>) -> Option<Seq<char>> {
    match find_from(l, type_marker(), 0) {
        Some(p) => Some(trim(segment_after(l, type_marker(), p))),
        None => None,
    }
}

/// The rule (name, value) a line declares, if it declares one.
pub open spec fn line_rule(l: Seq<char>) -> Option<(Seq<char>, Seq<char>)> {
    match find_from(l, rule_marker(), 0) {
        Some(p) => {
            let seg = segment_after(l, rule_marker(), p);
            match find_from(seg, "="@, 0) {
                Some(e) => Some((trim(seg.subrange(0, e)), trim(seg.subrange(e + 1, seg.len() as int)))),
                None => None,
            }
        },
        None => None,
    }
}

/// `ts` with the transaction types that `lines` declare added in order.
pub open spec fn scan_types(ts: Seq<Seq<char>>, lines: Seq<Seq<char>>) -> Seq<Seq<char>>
    decreases lines.len(),
{
    if lines.len() == 0 {
        ts
    } else {
        let before = scan_types(ts, lines.drop_last());
        match line_type(lines.last()) {
            Some(t) => add_type(before, t),
            None => before,
        }
    }
}

/// `rs` with the rules that `lines` declare set in order.
pub open spec fn scan_rules(rs: Map<Seq<char>, Seq<char>>, lines: Seq<Seq<char>>) -> Map<
    Seq<char>,
    Seq<char>,
>
    decreases lines.len(),
{
    if lines.len() == 0 {
        rs
    } else {
        let before = scan_rules(rs, lines.drop_last());
        match line_rule(lines.last()) {
            Some(r) => before.insert(r.0, r.1),
            None => before,
        }
    }
}

/// The description that `content` gives: the first quoted text after the
/// first `rdfs:comment`.
pub open spec fn described(content: Seq<char>) -> Option<Seq<char>> {
    match find_from(content, "rdfs:comment"@, 0) {
        Some(m) => match find_from(content, "\""@, m) {
            Some(q) => match find_from(content, "\""@, q + 1) {
                Some(e) => Some(content.subrange(q + 1, e)),
                None => None,
            },
            None => None,
        },
        None => None,
    }
}

pub open spec fn default_description(domain_name: Seq<char>) -> Seq<char> {
    "Domain configuration for "@ + domain_name
}

proof fn lemma_standard_types_distinct()
    ensures
        standard_types().no_duplicates(),
{
    reveal_strlit("Production");
    reveal_strlit("Processing");
    reveal_strlit("Transport");
    reveal_strlit("Quality");
    reveal_strlit("Transfer");
    reveal_strlit("Environmental");
    reveal_strlit("Compliance");
    reveal_strlit("Governance");
    let s = standard_types();
    assert forall|i: int, j: int| 0 <= i < s.len() && 0 <= j < s.len() && i != j implies s[i]
        != s[j] by {
        if s[i] == s[j] {
            assert(s[i].len() == s[j].len());
            assert(s[i][0] == s[j][0]);
            assert(s[i][3] == s[j][3]);
        }
    }
}

/// A line declares `Recall` as a transaction type.
pub open spec fn declares_recall(l: Seq<char>) -> bool {
    line_type(l) == Some("Recall"@)
}

proof fn lemma_recall_not_standard()
    ensures
        !standard_types().contains("Recall"@),
{
    reveal_strlit("Recall");
    reveal_strlit("Production");
    reveal_strlit("Processing");
    reveal_strlit("Transport");
    reveal_strlit("Quality");
    reveal_strlit("Transfer");
    reveal_strlit("Environmental");
    reveal_strlit("Compliance");
    reveal_strlit("Governance");
    let s = standard_types();
    assert forall|i: int| 0 <= i < s.len() implies s[i] != "Recall"@ by {
        assert(s[i].len() != 6);
    }
}

proof fn lemma_scan_recall_only(lines: Seq<Seq<char>>)
    requires
        forall|i: int| 0 <= i < lines.len() ==> line_type(#[trigger] lines[i]) is None || declares_recall(lines[i]),
    ensures
        scan_types(standard_types(), lines) == if exists|i: int| 0 <= i < lines.len() && declares_recall(#[trigger] lines[i]) {
            standard_types().push("Recall"@)
        } else {
            standard_types()
        },
    decreases lines.len(),
{
    lemma_recall_not_standard();
    let std = standard_types();
    let r = std.push("Recall"@);
    assert(r[std.len() as int] == "Recall"@);
    assert(r.contains("Recall"@));
    if lines.len() > 0 {
        let front = lines.drop_last();
        assert forall|i: int| 0 <= i < front.len() implies line_type(#[trigger] front[i]) is None || declares_recall(front[i]) by {
            assert(front[i] == lines[i]);
        }
        lemma_scan_recall_only(front);
        if exists|i: int| 0 <= i < front.len() && declares_recall(#[trigger] front[i]) {
            let i = choose|i: int| 0 <= i < front.len() && declares_recall(#[trigger] front[i]);
            assert(front[i] == lines[i]);
        }
        if exists|i: int| 0 <= i < lines.len() && declares_recall(#[trigger] lines[i]) {
            let i = choose|i: int| 0 <= i < lines.len() && declares_recall(#[trigger] lines[i]);
            if i < front.len() {
                assert(front[i] == lines[i]);
            }
        }
        assert(lines.last() == lines[lines.len() - 1]);
    }
}

/// Ontology text whose only transaction-type annotation is a
/// `# Transaction type: Recall` line gives the standard types followed by
/// `Recall`.
pub proof fn recall_annotation_adds_recall(content: Seq<char>)
    requires
        forall|i: int|
            0 <= i < lines_of(content).len() ==> line_type(#[trigger] lines_of(content)[i]) is None
                || declares_recall(lines_of(content)[i]),
        exists|i: int| 0 <= i < lines_of(content).len() && declares_recall(#[trigger] lines_of(content)[i]),
    ensures
        scan_types(standard_types(), lines_of(content)) == standard_types().push("Recall"@),
{
    lemma_scan_recall_only(lines_of(content));
}

/// The standard transaction types, in their fixed order.
pub fn standard_transaction_types() -> (r: Vec<String>)
    ensures
        str_views(r@) == standard_types(),
{
    let r = vec![
        "Production".to_owned(),
        "Processing".to_owned(),
        "Transport".to_owned(),
        "Quality".to_owned(),
        "Transfer".to_owned(),
        "Environmental".to_owned(),
        "Compliance".to_owned(),
        "Governance".to_owned(),
    ];
    assert(str_views(r@) =~= standard_types());
    r
}

/// The text after the marker at `p` in `l`, up to the marker's next
/// occurrence or the end of the line, as bounds.
fn segment_bounds(l: &Vec<char>, m: &Vec<char>, p: usize) -> (r: (usize, usize))
    requires
        find_from(l@, m@, 0) == Some(p as int),
    ensures
        r.0 <= r.1 <= l.len(),
        l@.subrange(r.0 as int, r.1 as int) == segment_after(l@, m@, p as int),
{
    proof { lemma_find_from_bounds(l@, m@, 0); }
    let s = p + m.len();
    match find_exec(l, m, s) {
        Some(e) => {
            proof { lemma_find_from_bounds(l@, m@, s as int); }
            (s, e)
        },
        None => (s, l.len()),
    }
}

/// Applies the annotations of one line.
fn apply_line(config: &mut DomainConfig, l: &Vec<char>, tm: &Vec<char>, rm: &Vec<char>, eq: &Vec<char>)
    requires
        old(config).wf(),
        tm@ == type_marker(),
        rm@ == rule_marker(),
        eq@ == "="@,
    ensures
        final(config).wf(),
        final(config).domain_name == old(config).domain_name,
        final(config).description == old(config).description,
        final(config).types() == match line_type(l@) {
            Some(t) => add_type(old(config).types(), t),
            None => old(config).types(),
        },
        final(config).rules() == match line_rule(l@) {
            Some(r) => old(config).rules().insert(r.0, r.1),
            None => old(config).rules(),
        },
{
    proof {
        reveal_strlit("=");
    }
    match find_exec(l, tm, 0) {
        Some(p) => {
            let (a, b) = segment_bounds(l, tm, p);
            let (x, y) = trim_bounds(l, a, b);
            config.add_transaction_type(string_of(l, x, y));
        },
        None => {},
    }
    match find_exec(l, rm, 0) {
        Some(p) => {
            let (a, b) = segment_bounds(l, rm, p);
            let seg = crate::text::sub_chars(l, a, b);
            match find_exec(&seg, eq, 0) {
                Some(e) => {
                    proof { lemma_find_from_bounds(seg@, eq@, 0); }
                    let (x, y) = trim_bounds(&seg, 0, e);
                    let (u, v) = trim_bounds(&seg, e + 1, seg.len());
                    config.add_validation_rule(string_of(&seg, x, y), string_of(&seg, u, v));
                },
                None => {},
            }
        },
        None => {},
    }
}

/// Applies the description and the line annotations of `content` to
/// `config`.
pub fn extract_domain_info_from_ontology(config: &mut DomainConfig, content: &str)
    requires
        old(config).wf(),
    ensures
        final(config).wf(),
        final(config).domain_name == old(config).domain_name,
        final(config).description@ == match described(content@) {
            Some(d) => d,
            None => old(config).description@,
        },
        final(config).types() == scan_types(old(config).types(), lines_of(content@)),
        final(config).rules() == scan_rules(old(config).rules(), lines_of(content@)),
{
    let c = to_chars(content);
    let quote = to_chars("\"");
    proof {
        reveal_strlit("\"");
        assert(quote@.len() == 1);
    }
    match find_exec(&c, &to_chars("rdfs:comment"), 0) {
        Some(m) => {
            proof { lemma_find_from_bounds(c@, "rdfs:comment"@, 0); }
            match find_exec(&c, &quote, m) {
                Some(q) => {
                    proof { lemma_find_from_bounds(c@, quote@, m as int); }
                    match find_exec(&c, &quote, q + 1) {
                        Some(e) => {
                            proof { lemma_find_from_bounds(c@, quote@, q + 1); }
                            config.description = string_of(&c, q + 1, e);
                        },
                        None => {},
                    }
                },
                None => {},
            }
        },
        None => {},
    }
    let lines = split_lines(&c);
    let tm = to_chars("# Transaction type:");
    let rm = to_chars("# Validation rule:");
    let eq = to_chars("=");
    let ghost t0 = config.types();
    let ghost r0 = config.rules();
    let mut i: usize = 0;
    while i < lines.len()
        invariant
            i <= lines.len(),
            views(lines@) == lines_of(c@),
            c@ == content@,
            tm@ == type_marker(),
            rm@ == rule_marker(),
            eq@ == "="@,
            config.wf(),
            config.domain_name == old(config).domain_name,
            config.description@ == match described(content@) {
                Some(d) => d,
                None => old(config).description@,
            },
            config.types() == scan_types(t0, views(lines@).take(i as int)),
            config.rules() == scan_rules(r0, views(lines@).take(i as int)),
        decreases lines.len() - i,
    {
        assert(views(lines@).take(i + 1).drop_last() =~= views(lines@).take(i as int));
        assert(views(lines@).take(i + 1).last() == lines@[i as int]@);
        apply_line(config, &lines[i], &tm, &rm, &eq);
        i += 1;
    }
    assert(views(lines@).take(lines.len() as int) =~= views(lines@));
}

/// The domain configuration for `config`: the standard transaction types,
/// then what the domain ontology's annotations add, if its text could be
/// read (`ontology_content` is `None` where it could not).
pub fn load_domain_config(config: &OntologyConfig, ontology_content: Option<&str>) -> (r: DomainConfig)
    ensures
        r.wf(),
        is_loaded_config(
            r,
            config.domain_name@,
            match ontology_content {
                Some(c) => Some(c@),
                None => None,
            },
        ),
{
    let domain_name = config.domain_name();
    let description = "Domain configuration for ".to_owned().concat(domain_name.as_str());
    let mut d = DomainConfig::new(domain_name, description);
    d.supported_transaction_types = standard_transaction_types();
    proof {
        lemma_standard_types_distinct();
    }
    match ontology_content {
        Some(c) => extract_domain_info_from_ontology(&mut d, c),
        None => {},
    }
    d
}

} // verus!
