#![allow(dead_code, unused_imports)]

use murphy_rails::ast::{IfKeyword, Node, NodeKind as K, Range, SourceFile};
use murphy_rails::report::{Edit, Offense};
use murphy_rails::cops::relative_date_constant::RelativeDateConstant;

type Options = ();

/// Runs the rule on every node of the file, in document order.
fn run(f: &SourceFile, o: &Options) -> Vec<Offense> {
    let _ = o;
    let mut out = Vec::new();
    for i in 0..f.nodes.len() {
        match &f.nodes[i].kind {
            K::Casgn { .. } => out.extend(RelativeDateConstant.check_casgn(f, i)),
            K::Masgn { .. } => out.extend(RelativeDateConstant.check_masgn(f, i)),
            K::OrAsgn { .. } => out.extend(RelativeDateConstant.check_orasgn(f, i)),
            _ => {}
        }
    }
    out
}

/// A node without call details.
fn n(kind: K, start: usize, end: usize, name_start: usize, name_end: usize, parent: Option<usize>) -> Node {
    c(kind, start, end, name_start, name_end, parent, None, None, false, None)
}

/// A node with its call details.
fn c(
    kind: K,
    start: usize,
    end: usize,
    name_start: usize,
    name_end: usize,
    parent: Option<usize>,
    dot: Option<(usize, usize)>,
    op: Option<(usize, usize)>,
    parenthesized: bool,
    paren_end: Option<usize>,
) -> Node {
    Node {
        kind,
        range: Range { start, end },
        name_range: Range { start: name_start, end: name_end },
        dot_range: dot.map(|(s, e)| Range { start: s, end: e }),
        operator_range: op.map(|(s, e)| Range { start: s, end: e }),
        parent,
        parenthesized,
        paren_end,
    }
}

/// How the rule is run: target Rails version, file path and options.
struct Case<'a> {
    major: u32,
    minor: u32,
    path: &'a str,
    options: Option<&'a Options>,
}

fn test<'a>() -> Case<'a> {
    Case { major: 8, minor: 0, path: "test.rb", options: None }
}

fn run_cop(src: &str) -> Vec<Offense> {
    test().offenses(src)
}

/// The offenses of a run, and all their edits.
struct Run {
    offenses: Vec<Offense>,
    edits: Vec<Edit>,
}

fn run_cop_with_edits(src: &str) -> Run {
    let offenses = test().offenses(src);
    let mut edits = Vec::new();
    for o in &offenses {
        for e in &o.edits {
            edits.push(Edit { range: e.range, replacement: e.replacement.clone() });
        }
    }
    Run { offenses, edits }
}

/// The source without its `^^^ message` lines, and the marks: line,
/// column, width and message.
fn split_marks(text: &str) -> (String, Vec<(usize, usize, usize, String)>) {
    let mut src = String::new();
    let mut marks = Vec::new();
    let mut line = 0usize;
    for l in text.split_inclusive('\n') {
        let t = l.trim_start_matches(' ');
        if t.starts_with('^') {
            let body = t.trim_end_matches('\n');
            let width = body.chars().take_while(|&ch| ch == '^').count();
            let rest = &body[width..];
            let msg = rest.strip_prefix(' ').unwrap_or(rest);
            marks.push((line - 1, l.len() - t.len(), width, msg.to_string()));
        } else {
            src.push_str(l);
            line += 1;
        }
    }
    (src, marks)
}

/// The marks of offenses: a span over several lines is marked to the end
/// of its first line.
fn marks_of(src: &str, offenses: &[Offense]) -> Vec<(usize, usize, usize, String)> {
    let chars: Vec<char> = src.chars().collect();
    let mut out = Vec::new();
    for o in offenses {
        let (s, e) = (o.range.start, o.range.end);
        let line = chars[..s].iter().filter(|&&ch| ch == '\n').count();
        let line_start = chars[..s].iter().rposition(|&ch| ch == '\n').map_or(0, |p| p + 1);
        let line_end = chars[s..].iter().position(|&ch| ch == '\n').map_or(chars.len(), |p| s + p);
        let col = s - line_start;
        let width = if e <= line_end { e - s } else { line_end - s };
        out.push((line, col, width, o.message.clone()));
    }
    out.sort();
    out
}

/// The source with every offense's edits applied, in order of position;
/// an edit overlapping one already applied is left out.
fn corrected(src: &str, offenses: &[Offense]) -> String {
    let chars: Vec<char> = src.chars().collect();
    let mut edits: Vec<(usize, usize, usize, String)> = Vec::new();
    for o in offenses {
        for e in &o.edits {
            edits.push((e.range.start, e.range.end, edits.len(), e.replacement.clone()));
        }
    }
    edits.sort();
    let mut out = String::new();
    let mut pos = 0usize;
    for (s, e, _, r) in edits {
        if s < pos {
            continue;
        }
        out.extend(chars[pos..s].iter());
        out.push_str(&r);
        pos = e;
    }
    out.extend(chars[pos..].iter());
    out
}

impl<'a> Case<'a> {
    fn with_target_rails_version(mut self, major: u32, minor: u32) -> Self {
        self.major = major;
        self.minor = minor;
        self
    }

    fn with_file_path(mut self, path: &'a str) -> Self {
        self.path = path;
        self
    }

    fn with_options(mut self, options: &'a Options) -> Self {
        self.options = Some(options);
        self
    }

    fn offenses(&self, src: &str) -> Vec<Offense> {
        let file = SourceFile {
            source: src.to_string(),
            file_path: self.path.to_string(),
            nodes: tree(src),
            rails_major: self.major,
            rails_minor: self.minor,
        };
        let default = Options::default();
        run(&file, self.options.unwrap_or(&default))
    }

    fn expect_offense<S: AsRef<str>>(self, annotated: S) -> Self {
        let annotated = annotated.as_ref();
        let (src, marks) = split_marks(annotated);
        let mut expected = marks;
        expected.sort();
        assert_eq!(marks_of(&src, &self.offenses(&src)), expected);
        self
    }

    fn expect_no_offenses<S: AsRef<str>>(self, src: S) -> Self {
        let src = src.as_ref();
        let found = self.offenses(src);
        assert!(found.is_empty(), "unexpected offenses: {:?}", marks_of(src, &found));
        self
    }

    fn expect_correction<S: AsRef<str>>(self, annotated: S, expected: &str) -> Self {
        let annotated = annotated.as_ref();
        let (src, marks) = split_marks(annotated);
        let found = self.offenses(&src);
        let mut want = marks;
        want.sort();
        assert_eq!(marks_of(&src, &found), want);
        assert_eq!(corrected(&src, &found), expected);
        self
    }
}

/// The syntax tree of each source used below.
fn tree(src: &str) -> Vec<Node> {
    match src {
        r#"class SomeClass
  EXPIRED_AT = 1.week.since(base)
end
"# => vec![
            n(K::Class { name: 1, superclass: None, body: Some(2) }, 0, 53, 0, 5, None),
            n(K::Const { scope: None, name: "SomeClass".into() }, 6, 15, 6, 15, Some(0)),
            c(K::Casgn { scope: None, name: "EXPIRED_AT".into(), value: Some(3) }, 18, 49, 18, 28, Some(0), None, Some((29, 30)), false, None),
            c(K::Send { receiver: Some(4), method: "since".into(), args: vec![6] }, 31, 49, 38, 43, Some(2), Some((37, 38)), None, true, Some(49)),
            c(K::Send { receiver: Some(5), method: "week".into(), args: vec![] }, 31, 37, 33, 37, Some(3), Some((32, 33)), None, false, None),
            n(K::Int(1), 31, 32, 31, 32, Some(4)),
            n(K::Send { receiver: None, method: "base".into(), args: vec![] }, 44, 48, 44, 48, Some(3)),
        ],
        r#"class SomeClass
  EXPIRED_AT = -> { 1.year.ago }
end
"# => vec![
            n(K::Class { name: 1, superclass: None, body: Some(2) }, 0, 52, 0, 5, None),
            n(K::Const { scope: None, name: "SomeClass".into() }, 6, 15, 6, 15, Some(0)),
            c(K::Casgn { scope: None, name: "EXPIRED_AT".into(), value: Some(3) }, 18, 48, 18, 28, Some(0), None, Some((29, 30)), false, None),
            n(K::Block { call: 4, args: 5, body: Some(6) }, 31, 48, 31, 48, Some(2)),
            n(K::Other(vec![]), 31, 33, 31, 33, Some(3)),
            n(K::Args(vec![]), 34, 34, 34, 34, Some(3)),
            c(K::Send { receiver: Some(7), method: "ago".into(), args: vec![] }, 36, 46, 43, 46, Some(3), Some((42, 43)), None, false, None),
            c(K::Send { receiver: Some(8), method: "year".into(), args: vec![] }, 36, 42, 38, 42, Some(6), Some((37, 38)), None, false, None),
            n(K::Int(1), 36, 37, 36, 37, Some(7)),
        ],
        r#"class SomeClass
  EXPIRED_AT = Proc.new { 1.year.ago }
end
"# => vec![
            n(K::Class { name: 1, superclass: None, body: Some(2) }, 0, 58, 0, 5, None),
            n(K::Const { scope: None, name: "SomeClass".into() }, 6, 15, 6, 15, Some(0)),
            c(K::Casgn { scope: None, name: "EXPIRED_AT".into(), value: Some(3) }, 18, 54, 18, 28, Some(0), None, Some((29, 30)), false, None),
            n(K::Block { call: 4, args: 6, body: Some(7) }, 31, 54, 31, 54, Some(2)),
            c(K::Send { receiver: Some(5), method: "new".into(), args: vec![] }, 31, 39, 36, 39, Some(3), Some((35, 36)), None, false, None),
            n(K::Const { scope: None, name: "Proc".into() }, 31, 35, 31, 35, Some(4)),
            n(K::Args(vec![]), 41, 41, 41, 41, Some(3)),
            c(K::Send { receiver: Some(8), method: "ago".into(), args: vec![] }, 42, 52, 49, 52, Some(3), Some((48, 49)), None, false, None),
            c(K::Send { receiver: Some(9), method: "year".into(), args: vec![] }, 42, 48, 44, 48, Some(7), Some((43, 44)), None, false, None),
            n(K::Int(1), 42, 43, 42, 43, Some(8)),
        ],
        r#"class SomeClass
  EXPIRIES = {
    yearly: Proc.new { 1.year.ago },
    monthly: Proc.new { 1.month.ago }
  }
end
"# => vec![
            n(K::Class { name: 1, superclass: None, body: Some(2) }, 0, 113, 0, 5, None),
            n(K::Const { scope: None, name: "SomeClass".into() }, 6, 15, 6, 15, Some(0)),
            c(K::Casgn { scope: None, name: "EXPIRIES".into(), value: Some(3) }, 18, 109, 18, 26, Some(0), None, Some((27, 28)), false, None),
            n(K::Hash(vec![4, 13]), 29, 109, 29, 109, Some(2)),
            c(K::Pair { key: 5, value: 6 }, 35, 66, 35, 66, Some(3), None, Some((41, 42)), false, None),
            n(K::Sym("yearly".into()), 35, 41, 35, 41, Some(4)),
            n(K::Block { call: 7, args: 9, body: Some(10) }, 43, 66, 43, 66, Some(4)),
            c(K::Send { receiver: Some(8), method: "new".into(), args: vec![] }, 43, 51, 48, 51, Some(6), Some((47, 48)), None, false, None),
            n(K::Const { scope: None, name: "Proc".into() }, 43, 47, 43, 47, Some(7)),
            n(K::Args(vec![]), 53, 53, 53, 53, Some(6)),
            c(K::Send { receiver: Some(11), method: "ago".into(), args: vec![] }, 54, 64, 61, 64, Some(6), Some((60, 61)), None, false, None),
            c(K::Send { receiver: Some(12), method: "year".into(), args: vec![] }, 54, 60, 56, 60, Some(10), Some((55, 56)), None, false, None),
            n(K::Int(1), 54, 55, 54, 55, Some(11)),
            c(K::Pair { key: 14, value: 15 }, 72, 105, 72, 105, Some(3), None, Some((79, 80)), false, None),
            n(K::Sym("monthly".into()), 72, 79, 72, 79, Some(13)),
            n(K::Block { call: 16, args: 18, body: Some(19) }, 81, 105, 81, 105, Some(13)),
            c(K::Send { receiver: Some(17), method: "new".into(), args: vec![] }, 81, 89, 86, 89, Some(15), Some((85, 86)), None, false, None),
            n(K::Const { scope: None, name: "Proc".into() }, 81, 85, 81, 85, Some(16)),
            n(K::Args(vec![]), 91, 91, 91, 91, Some(15)),
            c(K::Send { receiver: Some(20), method: "ago".into(), args: vec![] }, 92, 103, 100, 103, Some(15), Some((99, 100)), None, false, None),
            c(K::Send { receiver: Some(21), method: "month".into(), args: vec![] }, 92, 99, 94, 99, Some(19), Some((93, 94)), None, false, None),
            n(K::Int(1), 92, 93, 92, 93, Some(20)),
        ],
        r#"class SomeClass
  EXPIRED_AT = 1.week.since
end
"# => vec![
            n(K::Class { name: 1, superclass: None, body: Some(2) }, 0, 47, 0, 5, None),
            n(K::Const { scope: None, name: "SomeClass".into() }, 6, 15, 6, 15, Some(0)),
            c(K::Casgn { scope: None, name: "EXPIRED_AT".into(), value: Some(3) }, 18, 43, 18, 28, Some(0), None, Some((29, 30)), false, None),
            c(K::Send { receiver: Some(4), method: "since".into(), args: vec![] }, 31, 43, 38, 43, Some(2), Some((37, 38)), None, false, None),
            c(K::Send { receiver: Some(5), method: "week".into(), args: vec![] }, 31, 37, 33, 37, Some(3), Some((32, 33)), None, false, None),
            n(K::Int(1), 31, 32, 31, 32, Some(4)),
        ],
        r#"class SomeClass
  RECENT_DATE = Date.yesterday
end
"# => vec![
            n(K::Class { name: 1, superclass: None, body: Some(2) }, 0, 50, 0, 5, None),
            n(K::Const { scope: None, name: "SomeClass".into() }, 6, 15, 6, 15, Some(0)),
            c(K::Casgn { scope: None, name: "RECENT_DATE".into(), value: Some(3) }, 18, 46, 18, 29, Some(0), None, Some((30, 31)), false, None),
            c(K::Send { receiver: Some(4), method: "yesterday".into(), args: vec![] }, 32, 46, 37, 46, Some(2), Some((36, 37)), None, false, None),
            n(K::Const { scope: None, name: "Date".into() }, 32, 36, 32, 36, Some(3)),
        ],
        r#"class SomeClass
  FUTURE_DATE = Time.zone.tomorrow
end
"# => vec![
            n(K::Class { name: 1, superclass: None, body: Some(2) }, 0, 54, 0, 5, None),
            n(K::Const { scope: None, name: "SomeClass".into() }, 6, 15, 6, 15, Some(0)),
            c(K::Casgn { scope: None, name: "FUTURE_DATE".into(), value: Some(3) }, 18, 50, 18, 29, Some(0), None, Some((30, 31)), false, None),
            c(K::Send { receiver: Some(4), method: "tomorrow".into(), args: vec![] }, 32, 50, 42, 50, Some(2), Some((41, 42)), None, false, None),
            c(K::Send { receiver: Some(5), method: "zone".into(), args: vec![] }, 32, 41, 37, 41, Some(3), Some((36, 37)), None, false, None),
            n(K::Const { scope: None, name: "Time".into() }, 32, 36, 32, 36, Some(4)),
        ],
        r#"class SomeClass
  START_DATE = 2.weeks.ago.to_date
end
"# => vec![
            n(K::Class { name: 1, superclass: None, body: Some(2) }, 0, 54, 0, 5, None),
            n(K::Const { scope: None, name: "SomeClass".into() }, 6, 15, 6, 15, Some(0)),
            c(K::Casgn { scope: None, name: "START_DATE".into(), value: Some(3) }, 18, 50, 18, 28, Some(0), None, Some((29, 30)), false, None),
            c(K::Send { receiver: Some(4), method: "to_date".into(), args: vec![] }, 31, 50, 43, 50, Some(2), Some((42, 43)), None, false, None),
            c(K::Send { receiver: Some(5), method: "ago".into(), args: vec![] }, 31, 42, 39, 42, Some(3), Some((38, 39)), None, false, None),
            c(K::Send { receiver: Some(6), method: "weeks".into(), args: vec![] }, 31, 38, 33, 38, Some(4), Some((32, 33)), None, false, None),
            n(K::Int(2), 31, 32, 31, 32, Some(5)),
        ],
        r#"class SomeClass
  TRIAL_PERIOD = DateTime.current..1.day.since
end
"# => vec![
            n(K::Class { name: 1, superclass: None, body: Some(2) }, 0, 66, 0, 5, None),
            n(K::Const { scope: None, name: "SomeClass".into() }, 6, 15, 6, 15, Some(0)),
            c(K::Casgn { scope: None, name: "TRIAL_PERIOD".into(), value: Some(3) }, 18, 62, 18, 30, Some(0), None, Some((31, 32)), false, None),
            n(K::Other(vec![4, 6]), 33, 62, 33, 62, Some(2)),
            c(K::Send { receiver: Some(5), method: "current".into(), args: vec![] }, 33, 49, 42, 49, Some(3), Some((41, 42)), None, false, None),
            n(K::Const { scope: None, name: "DateTime".into() }, 33, 41, 33, 41, Some(4)),
            c(K::Send { receiver: Some(7), method: "since".into(), args: vec![] }, 51, 62, 57, 62, Some(3), Some((56, 57)), None, false, None),
            c(K::Send { receiver: Some(8), method: "day".into(), args: vec![] }, 51, 56, 53, 56, Some(6), Some((52, 53)), None, false, None),
            n(K::Int(1), 51, 52, 51, 52, Some(7)),
        ],
        r#"class SomeClass
  EXPIRED_AT ||= 1.week.since
end
"# => vec![
            n(K::Class { name: 1, superclass: None, body: Some(2) }, 0, 49, 0, 5, None),
            n(K::Const { scope: None, name: "SomeClass".into() }, 6, 15, 6, 15, Some(0)),
            c(K::OrAsgn { target: 3, value: 4 }, 18, 45, 18, 45, Some(0), None, Some((29, 32)), false, None),
            n(K::Casgn { scope: None, name: "EXPIRED_AT".into(), value: None }, 18, 28, 18, 28, Some(2)),
            c(K::Send { receiver: Some(5), method: "since".into(), args: vec![] }, 33, 45, 40, 45, Some(2), Some((39, 40)), None, false, None),
            c(K::Send { receiver: Some(6), method: "week".into(), args: vec![] }, 33, 39, 35, 39, Some(4), Some((34, 35)), None, false, None),
            n(K::Int(1), 33, 34, 33, 34, Some(5)),
        ],
        r#"class SomeClass
  START, A, x = 2.weeks.ago, 1.week.since, 5
end
"# => vec![
            n(K::Class { name: 1, superclass: None, body: Some(2) }, 0, 64, 0, 5, None),
            n(K::Const { scope: None, name: "SomeClass".into() }, 6, 15, 6, 15, Some(0)),
            c(K::Masgn { lhs: 3, rhs: 7 }, 18, 60, 18, 60, Some(0), None, Some((30, 31)), false, None),
            n(K::Mlhs(vec![4, 5, 6]), 18, 29, 18, 29, Some(2)),
            n(K::Casgn { scope: None, name: "START".into(), value: None }, 18, 23, 18, 23, Some(3)),
            n(K::Casgn { scope: None, name: "A".into(), value: None }, 25, 26, 25, 26, Some(3)),
            n(K::Lvasgn { name: "x".into(), value: None }, 28, 29, 28, 29, Some(3)),
            n(K::Array(vec![8, 11, 14]), 32, 60, 32, 60, Some(2)),
            c(K::Send { receiver: Some(9), method: "ago".into(), args: vec![] }, 32, 43, 40, 43, Some(7), Some((39, 40)), None, false, None),
            c(K::Send { receiver: Some(10), method: "weeks".into(), args: vec![] }, 32, 39, 34, 39, Some(8), Some((33, 34)), None, false, None),
            n(K::Int(2), 32, 33, 32, 33, Some(9)),
            c(K::Send { receiver: Some(12), method: "since".into(), args: vec![] }, 45, 57, 52, 57, Some(7), Some((51, 52)), None, false, None),
            c(K::Send { receiver: Some(13), method: "week".into(), args: vec![] }, 45, 51, 47, 51, Some(11), Some((46, 47)), None, false, None),
            n(K::Int(1), 45, 46, 45, 46, Some(12)),
            n(K::Int(5), 59, 60, 59, 60, Some(7)),
        ],
        r#"class SomeClass
  FOO, BAR = *do_something
end
"# => vec![
            n(K::Class { name: 1, superclass: None, body: Some(2) }, 0, 46, 0, 5, None),
            n(K::Const { scope: None, name: "SomeClass".into() }, 6, 15, 6, 15, Some(0)),
            c(K::Masgn { lhs: 3, rhs: 6 }, 18, 42, 18, 42, Some(0), None, Some((27, 28)), false, None),
            n(K::Mlhs(vec![4, 5]), 18, 26, 18, 26, Some(2)),
            n(K::Casgn { scope: None, name: "FOO".into(), value: None }, 18, 21, 18, 21, Some(3)),
            n(K::Casgn { scope: None, name: "BAR".into(), value: None }, 23, 26, 23, 26, Some(3)),
            n(K::Array(vec![7]), 29, 42, 29, 42, Some(2)),
            n(K::Other(vec![8]), 29, 42, 29, 42, Some(6)),
            n(K::Send { receiver: None, method: "do_something".into(), args: vec![] }, 30, 42, 30, 42, Some(7)),
        ],
        _ => panic!("no syntax tree for {:?}", src),
    }
}


#[test]
fn allows_method_with_args() {
    test().expect_no_offenses(r#"class SomeClass
  EXPIRED_AT = 1.week.since(base)
end
"#);
}

#[test]
fn allows_lambda() {
    test().expect_no_offenses(r#"class SomeClass
  EXPIRED_AT = -> { 1.year.ago }
end
"#);
}

#[test]
fn allows_proc() {
    test().expect_no_offenses(r#"class SomeClass
  EXPIRED_AT = Proc.new { 1.year.ago }
end
"#);
}

#[test]
fn allows_nested_proc_hash() {
    test().expect_no_offenses(r#"class SomeClass
  EXPIRIES = {
    yearly: Proc.new { 1.year.ago },
    monthly: Proc.new { 1.month.ago }
  }
end
"#);
}

#[test]
fn flags_since() {
    test().expect_correction(
        r#"class SomeClass
  EXPIRED_AT = 1.week.since
  ^^^^^^^^^^^^^^^^^^^^^^^^^ Do not assign `since` to constants as it will be evaluated only once.
end
"#,
        r#"class SomeClass
  def self.expired_at
    1.week.since
  end
end
"#,
    );
}

#[test]
fn flags_yesterday() {
    test().expect_correction(
        r#"class SomeClass
  RECENT_DATE = Date.yesterday
  ^^^^^^^^^^^^^^^^^^^^^^^^^^^^ Do not assign `yesterday` to constants as it will be evaluated only once.
end
"#,
        r#"class SomeClass
  def self.recent_date
    Date.yesterday
  end
end
"#,
    );
}

#[test]
fn flags_tomorrow() {
    test().expect_correction(
        r#"class SomeClass
  FUTURE_DATE = Time.zone.tomorrow
  ^^^^^^^^^^^^^^^^^^^^^^^^^^^^^^^^ Do not assign `tomorrow` to constants as it will be evaluated only once.
end
"#,
        r#"class SomeClass
  def self.future_date
    Time.zone.tomorrow
  end
end
"#,
    );
}

#[test]
fn flags_chained_after() {
    test().expect_correction(
        r#"class SomeClass
  START_DATE = 2.weeks.ago.to_date
  ^^^^^^^^^^^^^^^^^^^^^^^^^^^^^^^^ Do not assign `ago` to constants as it will be evaluated only once.
end
"#,
        r#"class SomeClass
  def self.start_date
    2.weeks.ago.to_date
  end
end
"#,
    );
}

#[test]
fn flags_range() {
    test().expect_offense(r#"class SomeClass
  TRIAL_PERIOD = DateTime.current..1.day.since
  ^^^^^^^^^^^^^^^^^^^^^^^^^^^^^^^^^^^^^^^^^^^^ Do not assign `since` to constants as it will be evaluated only once.
end
"#);
}

#[test]
fn flags_or_asgn() {
    test().expect_offense(r#"class SomeClass
  EXPIRED_AT ||= 1.week.since
  ^^^^^^^^^^^^^^^^^^^^^^^^^^^ Do not assign `since` to constants as it will be evaluated only once.
end
"#);
}

#[test]
fn flags_masgn() {
    test().expect_offense(r#"class SomeClass
  START, A, x = 2.weeks.ago, 1.week.since, 5
  ^^^^^^^^^^^^^^^^^^^^^^^^^ Do not assign `ago` to constants as it will be evaluated only once.
         ^^^^^^^^^^^^^^^^^^^^^^^^^^^^^^^^ Do not assign `since` to constants as it will be evaluated only once.
end
"#);
}

#[test]
fn allows_masgn_splat() {
    test().expect_no_offenses(r#"class SomeClass
  FOO, BAR = *do_something
end
"#);
}
