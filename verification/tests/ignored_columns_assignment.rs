#![allow(dead_code, unused_imports)]

use murphy_rails::ast::{IfKeyword, Node, NodeKind as K, Range, SourceFile};
use murphy_rails::report::{Edit, Offense};
use murphy_rails::cops::ignored_columns_assignment::IgnoredColumnsAssignment;

type Options = ();

/// Runs the rule on every node of the file, in document order.
fn run(f: &SourceFile, o: &Options) -> Vec<Offense> {
    let _ = o;
    let mut out = Vec::new();
    for i in 0..f.nodes.len() {
        match &f.nodes[i].kind {
            K::Send { .. } => out.extend(IgnoredColumnsAssignment.check_send(f, i)),
            _ => {}
        }
    }
    out
}

/// A node without call details.
fn n(kind: K, start: usize, end: usize, name_start: usize, name_end: usize, parent: Option<usize>) -> Node {
    c(kind, start, end, name_start, name_end, parent, None, None, false, None)
}

/// A node with its call details.
fn c(
    kind: K,
    start: usize,
    end: usize,
    name_start: usize,
    name_end: usize,
    parent: Option<usize>,
    dot: Option<(usize, usize)>,
    op: Option<(usize, usize)>,
    parenthesized: bool,
    paren_end: Option<usize>,
) -> Node {
    Node {
        kind,
        range: Range { start, end },
        name_range: Range { start: name_start, end: name_end },
        dot_range: dot.map(|(s, e)| Range { start: s, end: e }),
        operator_range: op.map(|(s, e)| Range { start: s, end: e }),
        parent,
        parenthesized,
        paren_end,
    }
}

/// How the rule is run: target Rails version, file path and options.
struct Case<'a> {
    major: u32,
    minor: u32,
    path: &'a str,
    options: Option<&'a Options>,
}

fn test<'a>() -> Case<'a> {
    Case { major: 8, minor: 0, path: "test.rb", options: None }
}

fn run_cop(src: &str) -> Vec<Offense> {
    test().offenses(src)
}

/// The offenses of a run, and all their edits.
struct Run {
    offenses: Vec<Offense>,
    edits: Vec<Edit>,
}

fn run_cop_with_edits(src: &str) -> Run {
    let offenses = test().offenses(src);
    let mut edits = Vec::new();
    for o in &offenses {
        for e in &o.edits {
            edits.push(Edit { range: e.range, replacement: e.replacement.clone() });
        }
    }
    Run { offenses, edits }
}

/// The source without its `^^^ message` lines, and the marks: line,
/// column, width and message.
fn split_marks(text: &str) -> (String, Vec<(usize, usize, usize, String)>) {
    let mut src = String::new();
    let mut marks = Vec::new();
    let mut line = 0usize;
    for l in text.split_inclusive('\n') {
        let t = l.trim_start_matches(' ');
        if t.starts_with('^') {
            let body = t.trim_end_matches('\n');
            let width = body.chars().take_while(|&ch| ch == '^').count();
            let rest = &body[width..];
            let msg = rest.strip_prefix(' ').unwrap_or(rest);
            marks.push((line - 1, l.len() - t.len(), width, msg.to_string()));
        } else {
            src.push_str(l);
            line += 1;
        }
    }
    (src, marks)
}

/// The marks of offenses: a span over several lines is marked to the end
/// of its first line.
fn marks_of(src: &str, offenses: &[Offense]) -> Vec<(usize, usize, usize, String)> {
    let chars: Vec<char> = src.chars().collect();
    let mut out = Vec::new();
    for o in offenses {
        let (s, e) = (o.range.start, o.range.end);
        let line = chars[..s].iter().filter(|&&ch| ch == '\n').count();
        let line_start = chars[..s].iter().rposition(|&ch| ch == '\n').map_or(0, |p| p + 1);
        let line_end = chars[s..].iter().position(|&ch| ch == '\n').map_or(chars.len(), |p| s + p);
        let col = s - line_start;
        let width = if e <= line_end { e - s } else { line_end - s };
        out.push((line, col, width, o.message.clone()));
    }
    out.sort();
    out
}

/// The source with every offense's edits applied, in order of position;
/// an edit overlapping one already applied is left out.
fn corrected(src: &str, offenses: &[Offense]) -> String {
    let chars: Vec<char> = src.chars().collect();
    let mut edits: Vec<(usize, usize, usize, String)> = Vec::new();
    for o in offenses {
        for e in &o.edits {
            edits.push((e.range.start, e.range.end, edits.len(), e.replacement.clone()));
        }
    }
    edits.sort();
    let mut out = String::new();
    let mut pos = 0usize;
    for (s, e, _, r) in edits {
        if s < pos {
            continue;
        }
        out.extend(chars[pos..s].iter());
        out.push_str(&r);
        pos = e;
    }
    out.extend(chars[pos..].iter());
    out
}

impl<'a> Case<'a> {
    fn with_target_rails_version(mut self, major: u32, minor: u32) -> Self {
        self.major = major;
        self.minor = minor;
        self
    }

    fn with_file_path(mut self, path: &'a str) -> Self {
        self.path = path;
        self
    }

    fn with_options(mut self, options: &'a Options) -> Self {
        self.options = Some(options);
        self
    }

    fn offenses(&self, src: &str) -> Vec<Offense> {
        let file = SourceFile {
            source: src.to_string(),
            file_path: self.path.to_string(),
            nodes: tree(src),
            rails_major: self.major,
            rails_minor: self.minor,
        };
        let default = Options::default();
        run(&file, self.options.unwrap_or(&default))
    }

    fn expect_offense<S: AsRef<str>>(self, annotated: S) -> Self {
        let annotated = annotated.as_ref();
        let (src, marks) = split_marks(annotated);
        let mut expected = marks;
        expected.sort();
        assert_eq!(marks_of(&src, &self.offenses(&src)), expected);
        self
    }

    fn expect_no_offenses<S: AsRef<str>>(self, src: S) -> Self {
        let src = src.as_ref();
        let found = self.offenses(src);
        assert!(found.is_empty(), "unexpected offenses: {:?}", marks_of(src, &found));
        self
    }

    fn expect_correction<S: AsRef<str>>(self, annotated: S, expected: &str) -> Self {
        let annotated = annotated.as_ref();
        let (src, marks) = split_marks(annotated);
        let found = self.offenses(&src);
        let mut want = marks;
        want.sort();
        assert_eq!(marks_of(&src, &found), want);
        assert_eq!(corrected(&src, &found), expected);
        self
    }
}

/// The syntax tree of each source used below.
fn tree(src: &str) -> Vec<Node> {
    match src {
        r#"class User < ActiveRecord::Base
  self.ignored_columns = [:one]
end
"# => vec![
            n(K::Class { name: 1, superclass: Some(2), body: Some(4) }, 0, 67, 0, 5, None),
            n(K::Const { scope: None, name: "User".into() }, 6, 10, 6, 10, Some(0)),
            n(K::Const { scope: Some(3), name: "Base".into() }, 13, 31, 27, 31, Some(0)),
            n(K::Const { scope: None, name: "ActiveRecord".into() }, 13, 25, 13, 25, Some(2)),
            c(K::Send { receiver: Some(5), method: "ignored_columns=".into(), args: vec![6] }, 34, 63, 39, 54, Some(0), Some((38, 39)), Some((55, 56)), false, None),
            n(K::SelfRef, 34, 38, 34, 38, Some(4)),
            n(K::Array(vec![7]), 57, 63, 57, 63, Some(4)),
            n(K::Sym("one".into()), 58, 62, 58, 62, Some(6)),
        ],
        r#"class User < ActiveRecord::Base
  self.ignored_columns = [:one]
  self.ignored_columns = [:two]
end
"# => vec![
            n(K::Class { name: 1, superclass: Some(2), body: Some(4) }, 0, 99, 0, 5, None),
            n(K::Const { scope: None, name: "User".into() }, 6, 10, 6, 10, Some(0)),
            n(K::Const { scope: Some(3), name: "Base".into() }, 13, 31, 27, 31, Some(0)),
            n(K::Const { scope: None, name: "ActiveRecord".into() }, 13, 25, 13, 25, Some(2)),
            n(K::Begin(vec![5, 9]), 34, 95, 34, 95, Some(0)),
            c(K::Send { receiver: Some(6), method: "ignored_columns=".into(), args: vec![7] }, 34, 63, 39, 54, Some(4), Some((38, 39)), Some((55, 56)), false, None),
            n(K::SelfRef, 34, 38, 34, 38, Some(5)),
            n(K::Array(vec![8]), 57, 63, 57, 63, Some(5)),
            n(K::Sym("one".into()), 58, 62, 58, 62, Some(7)),
            c(K::Send { receiver: Some(10), method: "ignored_columns=".into(), args: vec![11] }, 66, 95, 71, 86, Some(4), Some((70, 71)), Some((87, 88)), false, None),
            n(K::SelfRef, 66, 70, 66, 70, Some(9)),
            n(K::Array(vec![12]), 89, 95, 89, 95, Some(9)),
            n(K::Sym("two".into()), 90, 94, 90, 94, Some(11)),
        ],
        r#"class User < ActiveRecord::Base
  self.ignored_columns += [:one]
  self.ignored_columns = [:two]
end
"# => vec![
            n(K::Class { name: 1, superclass: Some(2), body: Some(4) }, 0, 100, 0, 5, None),
            n(K::Const { scope: None, name: "User".into() }, 6, 10, 6, 10, Some(0)),
            n(K::Const { scope: Some(3), name: "Base".into() }, 13, 31, 27, 31, Some(0)),
            n(K::Const { scope: None, name: "ActiveRecord".into() }, 13, 25, 13, 25, Some(2)),
            n(K::Begin(vec![5, 10]), 34, 96, 34, 96, Some(0)),
            c(K::Other(vec![6, 8]), 34, 64, 34, 64, Some(4), None, Some((55, 57)), false, None),
            c(K::Send { receiver: Some(7), method: "ignored_columns".into(), args: vec![] }, 34, 54, 39, 54, Some(5), Some((38, 39)), None, false, None),
            n(K::SelfRef, 34, 38, 34, 38, Some(6)),
            n(K::Array(vec![9]), 58, 64, 58, 64, Some(5)),
            n(K::Sym("one".into()), 59, 63, 59, 63, Some(8)),
            c(K::Send { receiver: Some(11), method: "ignored_columns=".into(), args: vec![12] }, 67, 96, 72, 87, Some(4), Some((71, 72)), Some((88, 89)), false, None),
            n(K::SelfRef, 67, 71, 67, 71, Some(10)),
            n(K::Array(vec![13]), 90, 96, 90, 96, Some(10)),
            n(K::Sym("two".into()), 91, 95, 91, 95, Some(12)),
        ],
        r#"class User < ActiveRecord::Base
  self.ignored_columns += [:one]
  self.ignored_columns += [:two]
end
"# => vec![
            n(K::Class { name: 1, superclass: Some(2), body: Some(4) }, 0, 101, 0, 5, None),
            n(K::Const { scope: None, name: "User".into() }, 6, 10, 6, 10, Some(0)),
            n(K::Const { scope: Some(3), name: "Base".into() }, 13, 31, 27, 31, Some(0)),
            n(K::Const { scope: None, name: "ActiveRecord".into() }, 13, 25, 13, 25, Some(2)),
            n(K::Begin(vec![5, 10]), 34, 97, 34, 97, Some(0)),
            c(K::Other(vec![6, 8]), 34, 64, 34, 64, Some(4), None, Some((55, 57)), false, None),
            c(K::Send { receiver: Some(7), method: "ignored_columns".into(), args: vec![] }, 34, 54, 39, 54, Some(5), Some((38, 39)), None, false, None),
            n(K::SelfRef, 34, 38, 34, 38, Some(6)),
            n(K::Array(vec![9]), 58, 64, 58, 64, Some(5)),
            n(K::Sym("one".into()), 59, 63, 59, 63, Some(8)),
            c(K::Other(vec![11, 13]), 67, 97, 67, 97, Some(4), None, Some((88, 90)), false, None),
            c(K::Send { receiver: Some(12), method: "ignored_columns".into(), args: vec![] }, 67, 87, 72, 87, Some(10), Some((71, 72)), None, false, None),
            n(K::SelfRef, 67, 71, 67, 71, Some(11)),
            n(K::Array(vec![14]), 91, 97, 91, 97, Some(10)),
            n(K::Sym("two".into()), 92, 96, 92, 96, Some(13)),
        ],
        _ => panic!("no syntax tree for {:?}", src),
    }
}


#[test]
fn flags_single_assignment() {
    test().expect_offense(r#"class User < ActiveRecord::Base
  self.ignored_columns = [:one]
                       ^ Use `+=` instead of `=`.
end
"#);
}

#[test]
fn corrects_single_assignment() {
    test().expect_correction(
        r#"class User < ActiveRecord::Base
  self.ignored_columns = [:one]
                       ^ Use `+=` instead of `=`.
end
"#,
        r#"class User < ActiveRecord::Base
  self.ignored_columns += [:one]
end
"#,
    );
}

#[test]
fn flags_twice() {
    test().expect_offense(r#"class User < ActiveRecord::Base
  self.ignored_columns = [:one]
                       ^ Use `+=` instead of `=`.
  self.ignored_columns = [:two]
                       ^ Use `+=` instead of `=`.
end
"#);
}

#[test]
fn flags_after_append() {
    test().expect_offense(r#"class User < ActiveRecord::Base
  self.ignored_columns += [:one]
  self.ignored_columns = [:two]
                       ^ Use `+=` instead of `=`.
end
"#);
}

#[test]
fn does_not_flag_append() {
    test().expect_no_offenses(r#"class User < ActiveRecord::Base
  self.ignored_columns += [:one]
  self.ignored_columns += [:two]
end
"#);
}
