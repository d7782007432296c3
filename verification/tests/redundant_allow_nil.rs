#![allow(dead_code, unused_imports)]

use murphy_rails::ast::{IfKeyword, Node, NodeKind as K, Range, SourceFile};
use murphy_rails::report::{Edit, Offense};
use murphy_rails::cops::redundant_allow_nil::RedundantAllowNil;

type Options = ();

/// Runs the rule on every node of the file, in document order.
fn run(f: &SourceFile, o: &Options) -> Vec<Offense> {
    let _ = o;
    let mut out = Vec::new();
    for i in 0..f.nodes.len() {
        match &f.nodes[i].kind {
            K::Send { .. } => out.extend(RedundantAllowNil.check_send(f, i)),
            _ => {}
        }
    }
    out
}

/// A node without call details.
fn n(kind: K, start: usize, end: usize, name_start: usize, name_end: usize, parent: Option<usize>) -> Node {
    c(kind, start, end, name_start, name_end, parent, None, None, false, None)
}

/// A node with its call details.
fn c(
    kind: K,
    start: usize,
    end: usize,
    name_start: usize,
    name_end: usize,
    parent: Option<usize>,
    dot: Option<(usize, usize)>,
    op: Option<(usize, usize)>,
    parenthesized: bool,
    paren_end: Option<usize>,
) -> Node {
    Node {
        kind,
        range: Range { start, end },
        name_range: Range { start: name_start, end: name_end },
        dot_range: dot.map(|(s, e)| Range { start: s, end: e }),
        operator_range: op.map(|(s, e)| Range { start: s, end: e }),
        parent,
        parenthesized,
        paren_end,
    }
}

/// How the rule is run: target Rails version, file path and options.
struct Case<'a> {
    major: u32,
    minor: u32,
    path: &'a str,
    options: Option<&'a Options>,
}

fn test<'a>() -> Case<'a> {
    Case { major: 8, minor: 0, path: "test.rb", options: None }
}

fn run_cop(src: &str) -> Vec<Offense> {
    test().offenses(src)
}

/// The offenses of a run, and all their edits.
struct Run {
    offenses: Vec<Offense>,
    edits: Vec<Edit>,
}

fn run_cop_with_edits(src: &str) -> Run {
    let offenses = test().offenses(src);
    let mut edits = Vec::new();
    for o in &offenses {
        for e in &o.edits {
            edits.push(Edit { range: e.range, replacement: e.replacement.clone() });
        }
    }
    Run { offenses, edits }
}

/// The source without its `^^^ message` lines, and the marks: line,
/// column, width and message.
fn split_marks(text: &str) -> (String, Vec<(usize, usize, usize, String)>) {
    let mut src = String::new();
    let mut marks = Vec::new();
    let mut line = 0usize;
    for l in text.split_inclusive('\n') {
        let t = l.trim_start_matches(' ');
        if t.starts_with('^') {
            let body = t.trim_end_matches('\n');
            let width = body.chars().take_while(|&ch| ch == '^').count();
            let rest = &body[width..];
            let msg = rest.strip_prefix(' ').unwrap_or(rest);
            marks.push((line - 1, l.len() - t.len(), width, msg.to_string()));
        } else {
            src.push_str(l);
            line += 1;
        }
    }
    (src, marks)
}

/// The marks of offenses: a span over several lines is marked to the end
/// of its first line.
fn marks_of(src: &str, offenses: &[Offense]) -> Vec<(usize, usize, usize, String)> {
    let chars: Vec<char> = src.chars().collect();
    let mut out = Vec::new();
    for o in offenses {
        let (s, e) = (o.range.start, o.range.end);
        let line = chars[..s].iter().filter(|&&ch| ch == '\n').count();
        let line_start = chars[..s].iter().rposition(|&ch| ch == '\n').map_or(0, |p| p + 1);
        let line_end = chars[s..].iter().position(|&ch| ch == '\n').map_or(chars.len(), |p| s + p);
        let col = s - line_start;
        let width = if e <= line_end { e - s } else { line_end - s };
        out.push((line, col, width, o.message.clone()));
    }
    out.sort();
    out
}

/// The source with every offense's edits applied, in order of position;
/// an edit overlapping one already applied is left out.
fn corrected(src: &str, offenses: &[Offense]) -> String {
    let chars: Vec<char> = src.chars().collect();
    let mut edits: Vec<(usize, usize, usize, String)> = Vec::new();
    for o in offenses {
        for e in &o.edits {
            edits.push((e.range.start, e.range.end, edits.len(), e.replacement.clone()));
        }
    }
    edits.sort();
    let mut out = String::new();
    let mut pos = 0usize;
    for (s, e, _, r) in edits {
        if s < pos {
            continue;
        }
        out.extend(chars[pos..s].iter());
        out.push_str(&r);
        pos = e;
    }
    out.extend(chars[pos..].iter());
    out
}

impl<'a> Case<'a> {
    fn with_target_rails_version(mut self, major: u32, minor: u32) -> Self {
        self.major = major;
        self.minor = minor;
        self
    }

    fn with_file_path(mut self, path: &'a str) -> Self {
        self.path = path;
        self
    }

    fn with_options(mut self, options: &'a Options) -> Self {
        self.options = Some(options);
        self
    }

    fn offenses(&self, src: &str) -> Vec<Offense> {
        let file = SourceFile {
            source: src.to_string(),
            file_path: self.path.to_string(),
            nodes: tree(src),
            rails_major: self.major,
            rails_minor: self.minor,
        };
        let default = Options::default();
        run(&file, self.options.unwrap_or(&default))
    }

    fn expect_offense<S: AsRef<str>>(self, annotated: S) -> Self {
        let annotated = annotated.as_ref();
        let (src, marks) = split_marks(annotated);
        let mut expected = marks;
        expected.sort();
        assert_eq!(marks_of(&src, &self.offenses(&src)), expected);
        self
    }

    fn expect_no_offenses<S: AsRef<str>>(self, src: S) -> Self {
        let src = src.as_ref();
        let found = self.offenses(src);
        assert!(found.is_empty(), "unexpected offenses: {:?}", marks_of(src, &found));
        self
    }

    fn expect_correction<S: AsRef<str>>(self, annotated: S, expected: &str) -> Self {
        let annotated = annotated.as_ref();
        let (src, marks) = split_marks(annotated);
        let found = self.offenses(&src);
        let mut want = marks;
        want.sort();
        assert_eq!(marks_of(&src, &found), want);
        assert_eq!(corrected(&src, &found), expected);
        self
    }
}

/// The syntax tree of each source used below.
fn tree(src: &str) -> Vec<Node> {
    match src {
        "validates :x, length: { is: 5 }, allow_nil: true, allow_blank: true\n" => vec![
            n(K::Send { receiver: None, method: "validates".into(), args: vec![1, 2] }, 0, 67, 0, 9, None),
            n(K::Sym("x".into()), 10, 12, 10, 12, Some(0)),
            n(K::Hash(vec![3, 9, 12]), 14, 67, 14, 67, Some(0)),
            c(K::Pair { key: 4, value: 5 }, 14, 31, 14, 31, Some(2), None, Some((20, 21)), false, None),
            n(K::Sym("length".into()), 14, 20, 14, 20, Some(3)),
            n(K::Hash(vec![6]), 22, 31, 22, 31, Some(3)),
            c(K::Pair { key: 7, value: 8 }, 24, 29, 24, 29, Some(5), None, Some((26, 27)), false, None),
            n(K::Sym("is".into()), 24, 26, 24, 26, Some(6)),
            n(K::Int(5), 28, 29, 28, 29, Some(6)),
            c(K::Pair { key: 10, value: 11 }, 33, 48, 33, 48, Some(2), None, Some((42, 43)), false, None),
            n(K::Sym("allow_nil".into()), 33, 42, 33, 42, Some(9)),
            n(K::True, 44, 48, 44, 48, Some(9)),
            c(K::Pair { key: 13, value: 14 }, 50, 67, 50, 67, Some(2), None, Some((61, 62)), false, None),
            n(K::Sym("allow_blank".into()), 50, 61, 50, 61, Some(12)),
            n(K::True, 63, 67, 63, 67, Some(12)),
        ],
        "validates :x, length: { is: 5 }, allow_nil: false, allow_blank: false\n" => vec![
            n(K::Send { receiver: None, method: "validates".into(), args: vec![1, 2] }, 0, 69, 0, 9, None),
            n(K::Sym("x".into()), 10, 12, 10, 12, Some(0)),
            n(K::Hash(vec![3, 9, 12]), 14, 69, 14, 69, Some(0)),
            c(K::Pair { key: 4, value: 5 }, 14, 31, 14, 31, Some(2), None, Some((20, 21)), false, None),
            n(K::Sym("length".into()), 14, 20, 14, 20, Some(3)),
            n(K::Hash(vec![6]), 22, 31, 22, 31, Some(3)),
            c(K::Pair { key: 7, value: 8 }, 24, 29, 24, 29, Some(5), None, Some((26, 27)), false, None),
            n(K::Sym("is".into()), 24, 26, 24, 26, Some(6)),
            n(K::Int(5), 28, 29, 28, 29, Some(6)),
            c(K::Pair { key: 10, value: 11 }, 33, 49, 33, 49, Some(2), None, Some((42, 43)), false, None),
            n(K::Sym("allow_nil".into()), 33, 42, 33, 42, Some(9)),
            n(K::False, 44, 49, 44, 49, Some(9)),
            c(K::Pair { key: 13, value: 14 }, 51, 69, 51, 69, Some(2), None, Some((62, 63)), false, None),
            n(K::Sym("allow_blank".into()), 51, 62, 51, 62, Some(12)),
            n(K::False, 64, 69, 64, 69, Some(12)),
        ],
        "validates :x, length: { is: 5 }, allow_nil: false, allow_blank: true\n" => vec![
            n(K::Send { receiver: None, method: "validates".into(), args: vec![1, 2] }, 0, 68, 0, 9, None),
            n(K::Sym("x".into()), 10, 12, 10, 12, Some(0)),
            n(K::Hash(vec![3, 9, 12]), 14, 68, 14, 68, Some(0)),
            c(K::Pair { key: 4, value: 5 }, 14, 31, 14, 31, Some(2), None, Some((20, 21)), false, None),
            n(K::Sym("length".into()), 14, 20, 14, 20, Some(3)),
            n(K::Hash(vec![6]), 22, 31, 22, 31, Some(3)),
            c(K::Pair { key: 7, value: 8 }, 24, 29, 24, 29, Some(5), None, Some((26, 27)), false, None),
            n(K::Sym("is".into()), 24, 26, 24, 26, Some(6)),
            n(K::Int(5), 28, 29, 28, 29, Some(6)),
            c(K::Pair { key: 10, value: 11 }, 33, 49, 33, 49, Some(2), None, Some((42, 43)), false, None),
            n(K::Sym("allow_nil".into()), 33, 42, 33, 42, Some(9)),
            n(K::False, 44, 49, 44, 49, Some(9)),
            c(K::Pair { key: 13, value: 14 }, 51, 68, 51, 68, Some(2), None, Some((62, 63)), false, None),
            n(K::Sym("allow_blank".into()), 51, 62, 51, 62, Some(12)),
            n(K::True, 64, 68, 64, 68, Some(12)),
        ],
        "validates :x, length: { is: 5 }, allow_nil: true, allow_blank: false\n" => vec![
            n(K::Send { receiver: None, method: "validates".into(), args: vec![1, 2] }, 0, 68, 0, 9, None),
            n(K::Sym("x".into()), 10, 12, 10, 12, Some(0)),
            n(K::Hash(vec![3, 9, 12]), 14, 68, 14, 68, Some(0)),
            c(K::Pair { key: 4, value: 5 }, 14, 31, 14, 31, Some(2), None, Some((20, 21)), false, None),
            n(K::Sym("length".into()), 14, 20, 14, 20, Some(3)),
            n(K::Hash(vec![6]), 22, 31, 22, 31, Some(3)),
            c(K::Pair { key: 7, value: 8 }, 24, 29, 24, 29, Some(5), None, Some((26, 27)), false, None),
            n(K::Sym("is".into()), 24, 26, 24, 26, Some(6)),
            n(K::Int(5), 28, 29, 28, 29, Some(6)),
            c(K::Pair { key: 10, value: 11 }, 33, 48, 33, 48, Some(2), None, Some((42, 43)), false, None),
            n(K::Sym("allow_nil".into()), 33, 42, 33, 42, Some(9)),
            n(K::True, 44, 48, 44, 48, Some(9)),
            c(K::Pair { key: 13, value: 14 }, 50, 68, 50, 68, Some(2), None, Some((61, 62)), false, None),
            n(K::Sym("allow_blank".into()), 50, 61, 50, 61, Some(12)),
            n(K::False, 63, 68, 63, 68, Some(12)),
        ],
        "validates :x, length: { is: 5 }, allow_nil: true\n" => vec![
            n(K::Send { receiver: None, method: "validates".into(), args: vec![1, 2] }, 0, 48, 0, 9, None),
            n(K::Sym("x".into()), 10, 12, 10, 12, Some(0)),
            n(K::Hash(vec![3, 9]), 14, 48, 14, 48, Some(0)),
            c(K::Pair { key: 4, value: 5 }, 14, 31, 14, 31, Some(2), None, Some((20, 21)), false, None),
            n(K::Sym("length".into()), 14, 20, 14, 20, Some(3)),
            n(K::Hash(vec![6]), 22, 31, 22, 31, Some(3)),
            c(K::Pair { key: 7, value: 8 }, 24, 29, 24, 29, Some(5), None, Some((26, 27)), false, None),
            n(K::Sym("is".into()), 24, 26, 24, 26, Some(6)),
            n(K::Int(5), 28, 29, 28, 29, Some(6)),
            c(K::Pair { key: 10, value: 11 }, 33, 48, 33, 48, Some(2), None, Some((42, 43)), false, None),
            n(K::Sym("allow_nil".into()), 33, 42, 33, 42, Some(9)),
            n(K::True, 44, 48, 44, 48, Some(9)),
        ],
        _ => panic!("no syntax tree for {:?}", src),
    }
}


#[test]
fn flags_same_true() {
    test().expect_offense(r#"validates :x, length: { is: 5 }, allow_nil: true, allow_blank: true
                                 ^^^^^^^^^^^^^^^ `allow_nil` is redundant when `allow_blank` has the same value.
"#);
}

#[test]
fn flags_same_false() {
    test().expect_offense(r#"validates :x, length: { is: 5 }, allow_nil: false, allow_blank: false
                                 ^^^^^^^^^^^^^^^^ `allow_nil` is redundant when `allow_blank` has the same value.
"#);
}

#[test]
fn flags_nil_false_blank_true() {
    test().expect_offense(r#"validates :x, length: { is: 5 }, allow_nil: false, allow_blank: true
                                 ^^^^^^^^^^^^^^^^ `allow_nil: false` is redundant when `allow_blank` is true.
"#);
}

#[test]
fn allows_nil_true_blank_false() {
    test().expect_no_offenses(
        "validates :x, length: { is: 5 }, allow_nil: true, allow_blank: false\n",
    );
}

#[test]
fn allows_only_allow_nil() {
    test()
        .expect_no_offenses("validates :x, length: { is: 5 }, allow_nil: true\n");
}

#[test]
fn corrects_same_true() {
    test().expect_correction(
        r#"validates :x, length: { is: 5 }, allow_nil: true, allow_blank: true
                                 ^^^^^^^^^^^^^^^ `allow_nil` is redundant when `allow_blank` has the same value.
"#,
        "validates :x, length: { is: 5 }, allow_blank: true\n",
    );
}

#[test]
fn corrects_nil_false_blank_true() {
    test().expect_correction(
        r#"validates :x, length: { is: 5 }, allow_nil: false, allow_blank: true
                                 ^^^^^^^^^^^^^^^^ `allow_nil: false` is redundant when `allow_blank` is true.
"#,
        "validates :x, length: { is: 5 }, allow_blank: true\n",
    );
}
