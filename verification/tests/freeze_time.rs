#![allow(dead_code, unused_imports)]

use murphy_rails::ast::{IfKeyword, Node, NodeKind as K, Range, SourceFile};
use murphy_rails::report::{Edit, Offense};
use murphy_rails::cops::freeze_time::FreezeTime;

type Options = ();

/// Runs the rule on every node of the file, in document order.
fn run(f: &SourceFile, o: &Options) -> Vec<Offense> {
    let _ = o;
    let mut out = Vec::new();
    for i in 0..f.nodes.len() {
        match &f.nodes[i].kind {
            K::Send { .. } => out.extend(FreezeTime.check_send(f, i)),
            _ => {}
        }
    }
    out
}

/// A node without call details.
fn n(kind: K, start: usize, end: usize, name_start: usize, name_end: usize, parent: Option<usize>) -> Node {
    c(kind, start, end, name_start, name_end, parent, None, None, false, None)
}

/// A node with its call details.
fn c(
    kind: K,
    start: usize,
    end: usize,
    name_start: usize,
    name_end: usize,
    parent: Option<usize>,
    dot: Option<(usize, usize)>,
    op: Option<(usize, usize)>,
    parenthesized: bool,
    paren_end: Option<usize>,
) -> Node {
    Node {
        kind,
        range: Range { start, end },
        name_range: Range { start: name_start, end: name_end },
        dot_range: dot.map(|(s, e)| Range { start: s, end: e }),
        operator_range: op.map(|(s, e)| Range { start: s, end: e }),
        parent,
        parenthesized,
        paren_end,
    }
}

/// How the rule is run: target Rails version, file path and options.
struct Case<'a> {
    major: u32,
    minor: u32,
    path: &'a str,
    options: Option<&'a Options>,
}

fn test<'a>() -> Case<'a> {
    Case { major: 8, minor: 0, path: "test.rb", options: None }
}

fn run_cop(src: &str) -> Vec<Offense> {
    test().offenses(src)
}

/// The offenses of a run, and all their edits.
struct Run {
    offenses: Vec<Offense>,
    edits: Vec<Edit>,
}

fn run_cop_with_edits(src: &str) -> Run {
    let offenses = test().offenses(src);
    let mut edits = Vec::new();
    for o in &offenses {
        for e in &o.edits {
            edits.push(Edit { range: e.range, replacement: e.replacement.clone() });
        }
    }
    Run { offenses, edits }
}

/// The source without its `^^^ message` lines, and the marks: line,
/// column, width and message.
fn split_marks(text: &str) -> (String, Vec<(usize, usize, usize, String)>) {
    let mut src = String::new();
    let mut marks = Vec::new();
    let mut line = 0usize;
    for l in text.split_inclusive('\n') {
        let t = l.trim_start_matches(' ');
        if t.starts_with('^') {
            let body = t.trim_end_matches('\n');
            let width = body.chars().take_while(|&ch| ch == '^').count();
            let rest = &body[width..];
            let msg = rest.strip_prefix(' ').unwrap_or(rest);
            marks.push((line - 1, l.len() - t.len(), width, msg.to_string()));
        } else {
            src.push_str(l);
            line += 1;
        }
    }
    (src, marks)
}

/// The marks of offenses: a span over several lines is marked to the end
/// of its first line.
fn marks_of(src: &str, offenses: &[Offense]) -> Vec<(usize, usize, usize, String)> {
    let chars: Vec<char> = src.chars().collect();
    let mut out = Vec::new();
    for o in offenses {
        let (s, e) = (o.range.start, o.range.end);
        let line = chars[..s].iter().filter(|&&ch| ch == '\n').count();
        let line_start = chars[..s].iter().rposition(|&ch| ch == '\n').map_or(0, |p| p + 1);
        let line_end = chars[s..].iter().position(|&ch| ch == '\n').map_or(chars.len(), |p| s + p);
        let col = s - line_start;
        let width = if e <= line_end { e - s } else { line_end - s };
        out.push((line, col, width, o.message.clone()));
    }
    out.sort();
    out
}

/// The source with every offense's edits applied, in order of position;
/// an edit overlapping one already applied is left out.
fn corrected(src: &str, offenses: &[Offense]) -> String {
    let chars: Vec<char> = src.chars().collect();
    let mut edits: Vec<(usize, usize, usize, String)> = Vec::new();
    for o in offenses {
        for e in &o.edits {
            edits.push((e.range.start, e.range.end, edits.len(), e.replacement.clone()));
        }
    }
    edits.sort();
    let mut out = String::new();
    let mut pos = 0usize;
    for (s, e, _, r) in edits {
        if s < pos {
            continue;
        }
        out.extend(chars[pos..s].iter());
        out.push_str(&r);
        pos = e;
    }
    out.extend(chars[pos..].iter());
    out
}

impl<'a> Case<'a> {
    fn with_target_rails_version(mut self, major: u32, minor: u32) -> Self {
        self.major = major;
        self.minor = minor;
        self
    }

    fn with_file_path(mut self, path: &'a str) -> Self {
        self.path = path;
        self
    }

    fn with_options(mut self, options: &'a Options) -> Self {
        self.options = Some(options);
        self
    }

    fn offenses(&self, src: &str) -> Vec<Offense> {
        let file = SourceFile {
            source: src.to_string(),
            file_path: self.path.to_string(),
            nodes: tree(src),
            rails_major: self.major,
            rails_minor: self.minor,
        };
        let default = Options::default();
        run(&file, self.options.unwrap_or(&default))
    }

    fn expect_offense<S: AsRef<str>>(self, annotated: S) -> Self {
        let annotated = annotated.as_ref();
        let (src, marks) = split_marks(annotated);
        let mut expected = marks;
        expected.sort();
        assert_eq!(marks_of(&src, &self.offenses(&src)), expected);
        self
    }

    fn expect_no_offenses<S: AsRef<str>>(self, src: S) -> Self {
        let src = src.as_ref();
        let found = self.offenses(src);
        assert!(found.is_empty(), "unexpected offenses: {:?}", marks_of(src, &found));
        self
    }

    fn expect_correction<S: AsRef<str>>(self, annotated: S, expected: &str) -> Self {
        let annotated = annotated.as_ref();
        let (src, marks) = split_marks(annotated);
        let found = self.offenses(&src);
        let mut want = marks;
        want.sort();
        assert_eq!(marks_of(&src, &found), want);
        assert_eq!(corrected(&src, &found), expected);
        self
    }
}

/// The syntax tree of each source used below.
fn tree(src: &str) -> Vec<Node> {
    match src {
        "travel_to(Time.now)\n" => vec![
            c(K::Send { receiver: None, method: "travel_to".into(), args: vec![1] }, 0, 19, 0, 9, None, None, None, true, Some(19)),
            c(K::Send { receiver: Some(2), method: "now".into(), args: vec![] }, 10, 18, 15, 18, Some(0), Some((14, 15)), None, false, None),
            n(K::Const { scope: None, name: "Time".into() }, 10, 14, 10, 14, Some(1)),
        ],
        "travel_to(Time.new)\n" => vec![
            c(K::Send { receiver: None, method: "travel_to".into(), args: vec![1] }, 0, 19, 0, 9, None, None, None, true, Some(19)),
            c(K::Send { receiver: Some(2), method: "new".into(), args: vec![] }, 10, 18, 15, 18, Some(0), Some((14, 15)), None, false, None),
            n(K::Const { scope: None, name: "Time".into() }, 10, 14, 10, 14, Some(1)),
        ],
        "travel_to(DateTime.now)\n" => vec![
            c(K::Send { receiver: None, method: "travel_to".into(), args: vec![1] }, 0, 23, 0, 9, None, None, None, true, Some(23)),
            c(K::Send { receiver: Some(2), method: "now".into(), args: vec![] }, 10, 22, 19, 22, Some(0), Some((18, 19)), None, false, None),
            n(K::Const { scope: None, name: "DateTime".into() }, 10, 18, 10, 18, Some(1)),
        ],
        "travel_to(Time.current)\n" => vec![
            c(K::Send { receiver: None, method: "travel_to".into(), args: vec![1] }, 0, 23, 0, 9, None, None, None, true, Some(23)),
            c(K::Send { receiver: Some(2), method: "current".into(), args: vec![] }, 10, 22, 15, 22, Some(0), Some((14, 15)), None, false, None),
            n(K::Const { scope: None, name: "Time".into() }, 10, 14, 10, 14, Some(1)),
        ],
        "travel_to(Time.zone.now)\n" => vec![
            c(K::Send { receiver: None, method: "travel_to".into(), args: vec![1] }, 0, 24, 0, 9, None, None, None, true, Some(24)),
            c(K::Send { receiver: Some(2), method: "now".into(), args: vec![] }, 10, 23, 20, 23, Some(0), Some((19, 20)), None, false, None),
            c(K::Send { receiver: Some(3), method: "zone".into(), args: vec![] }, 10, 19, 15, 19, Some(1), Some((14, 15)), None, false, None),
            n(K::Const { scope: None, name: "Time".into() }, 10, 14, 10, 14, Some(2)),
        ],
        "travel_to(Time.now.in_time_zone)\n" => vec![
            c(K::Send { receiver: None, method: "travel_to".into(), args: vec![1] }, 0, 32, 0, 9, None, None, None, true, Some(32)),
            c(K::Send { receiver: Some(2), method: "in_time_zone".into(), args: vec![] }, 10, 31, 19, 31, Some(0), Some((18, 19)), None, false, None),
            c(K::Send { receiver: Some(3), method: "now".into(), args: vec![] }, 10, 18, 15, 18, Some(1), Some((14, 15)), None, false, None),
            n(K::Const { scope: None, name: "Time".into() }, 10, 14, 10, 14, Some(2)),
        ],
        "travel_to(Time.current.to_time)\n" => vec![
            c(K::Send { receiver: None, method: "travel_to".into(), args: vec![1] }, 0, 31, 0, 9, None, None, None, true, Some(31)),
            c(K::Send { receiver: Some(2), method: "to_time".into(), args: vec![] }, 10, 30, 23, 30, Some(0), Some((22, 23)), None, false, None),
            c(K::Send { receiver: Some(3), method: "current".into(), args: vec![] }, 10, 22, 15, 22, Some(1), Some((14, 15)), None, false, None),
            n(K::Const { scope: None, name: "Time".into() }, 10, 14, 10, 14, Some(2)),
        ],
        "travel_to(::Time.now)\n" => vec![
            c(K::Send { receiver: None, method: "travel_to".into(), args: vec![1] }, 0, 21, 0, 9, None, None, None, true, Some(21)),
            c(K::Send { receiver: Some(2), method: "now".into(), args: vec![] }, 10, 20, 17, 20, Some(0), Some((16, 17)), None, false, None),
            n(K::Const { scope: None, name: "Time".into() }, 10, 16, 12, 16, Some(1)),
        ],
        "travel_to(::Time.zone.now)\n" => vec![
            c(K::Send { receiver: None, method: "travel_to".into(), args: vec![1] }, 0, 26, 0, 9, None, None, None, true, Some(26)),
            c(K::Send { receiver: Some(2), method: "now".into(), args: vec![] }, 10, 25, 22, 25, Some(0), Some((21, 22)), None, false, None),
            c(K::Send { receiver: Some(3), method: "zone".into(), args: vec![] }, 10, 21, 17, 21, Some(1), Some((16, 17)), None, false, None),
            n(K::Const { scope: None, name: "Time".into() }, 10, 16, 12, 16, Some(2)),
        ],
        r#"travel_to(Time.now) do
  do_something
end
"# => vec![
            n(K::Block { call: 1, args: 4, body: Some(5) }, 0, 41, 0, 41, None),
            c(K::Send { receiver: None, method: "travel_to".into(), args: vec![2] }, 0, 19, 0, 9, Some(0), None, None, true, Some(19)),
            c(K::Send { receiver: Some(3), method: "now".into(), args: vec![] }, 10, 18, 15, 18, Some(1), Some((14, 15)), None, false, None),
            n(K::Const { scope: None, name: "Time".into() }, 10, 14, 10, 14, Some(2)),
            n(K::Args(vec![]), 22, 22, 22, 22, Some(0)),
            n(K::Send { receiver: None, method: "do_something".into(), args: vec![] }, 25, 37, 25, 37, Some(0)),
        ],
        "travel_to(Time.current, &example)\n" => vec![
            c(K::Send { receiver: None, method: "travel_to".into(), args: vec![1, 3] }, 0, 33, 0, 9, None, None, None, true, Some(33)),
            c(K::Send { receiver: Some(2), method: "current".into(), args: vec![] }, 10, 22, 15, 22, Some(0), Some((14, 15)), None, false, None),
            n(K::Const { scope: None, name: "Time".into() }, 10, 14, 10, 14, Some(1)),
            n(K::BlockPass(Some(4)), 24, 32, 24, 32, Some(0)),
            n(K::Send { receiver: None, method: "example".into(), args: vec![] }, 25, 32, 25, 32, Some(3)),
        ],
        "travel_to(Time.current.yesterday)\n" => vec![
            c(K::Send { receiver: None, method: "travel_to".into(), args: vec![1] }, 0, 33, 0, 9, None, None, None, true, Some(33)),
            c(K::Send { receiver: Some(2), method: "yesterday".into(), args: vec![] }, 10, 32, 23, 32, Some(0), Some((22, 23)), None, false, None),
            c(K::Send { receiver: Some(3), method: "current".into(), args: vec![] }, 10, 22, 15, 22, Some(1), Some((14, 15)), None, false, None),
            n(K::Const { scope: None, name: "Time".into() }, 10, 14, 10, 14, Some(2)),
        ],
        "travel_to(DateTime.next_day)\n" => vec![
            c(K::Send { receiver: None, method: "travel_to".into(), args: vec![1] }, 0, 28, 0, 9, None, None, None, true, Some(28)),
            c(K::Send { receiver: Some(2), method: "next_day".into(), args: vec![] }, 10, 27, 19, 27, Some(0), Some((18, 19)), None, false, None),
            n(K::Const { scope: None, name: "DateTime".into() }, 10, 18, 10, 18, Some(1)),
        ],
        "travel_to(current)\n" => vec![
            c(K::Send { receiver: None, method: "travel_to".into(), args: vec![1] }, 0, 18, 0, 9, None, None, None, true, Some(18)),
            n(K::Send { receiver: None, method: "current".into(), args: vec![] }, 10, 17, 10, 17, Some(0)),
        ],
        "travel_to(DateTime.new(2022, 5, 3, 12, 0, 0))\n" => vec![
            c(K::Send { receiver: None, method: "travel_to".into(), args: vec![1] }, 0, 45, 0, 9, None, None, None, true, Some(45)),
            c(K::Send { receiver: Some(2), method: "new".into(), args: vec![3, 4, 5, 6, 7, 8] }, 10, 44, 19, 22, Some(0), Some((18, 19)), None, true, Some(44)),
            n(K::Const { scope: None, name: "DateTime".into() }, 10, 18, 10, 18, Some(1)),
            n(K::Int(2022), 23, 27, 23, 27, Some(1)),
            n(K::Int(5), 29, 30, 29, 30, Some(1)),
            n(K::Int(3), 32, 33, 32, 33, Some(1)),
            n(K::Int(12), 35, 37, 35, 37, Some(1)),
            n(K::Int(0), 39, 40, 39, 40, Some(1)),
            n(K::Int(0), 42, 43, 42, 43, Some(1)),
        ],
        "travel_to(Time.new(2019, 4, 3, 12, 30).in_time_zone)\n" => vec![
            c(K::Send { receiver: None, method: "travel_to".into(), args: vec![1] }, 0, 52, 0, 9, None, None, None, true, Some(52)),
            c(K::Send { receiver: Some(2), method: "in_time_zone".into(), args: vec![] }, 10, 51, 39, 51, Some(0), Some((38, 39)), None, false, None),
            c(K::Send { receiver: Some(3), method: "new".into(), args: vec![4, 5, 6, 7, 8] }, 10, 38, 15, 18, Some(1), Some((14, 15)), None, true, Some(38)),
            n(K::Const { scope: None, name: "Time".into() }, 10, 14, 10, 14, Some(2)),
            n(K::Int(2019), 19, 23, 19, 23, Some(2)),
            n(K::Int(4), 25, 26, 25, 26, Some(2)),
            n(K::Int(3), 28, 29, 28, 29, Some(2)),
            n(K::Int(12), 31, 33, 31, 33, Some(2)),
            n(K::Int(30), 35, 37, 35, 37, Some(2)),
        ],
        "travel_to\n" => vec![
            n(K::Send { receiver: None, method: "travel_to".into(), args: vec![] }, 0, 9, 0, 9, None),
        ],
        "freeze_time\n" => vec![
            n(K::Send { receiver: None, method: "freeze_time".into(), args: vec![] }, 0, 11, 0, 11, None),
        ],
        _ => panic!("no syntax tree for {:?}", src),
    }
}


#[test]
fn flags_time_now() {
    test().expect_offense(r#"travel_to(Time.now)
^^^^^^^^^^^^^^^^^^^ Use `freeze_time` instead of `travel_to`.
"#);
}

#[test]
fn flags_time_new_and_datetime_now() {
    test().expect_offense(r#"travel_to(Time.new)
^^^^^^^^^^^^^^^^^^^ Use `freeze_time` instead of `travel_to`.
"#);
    test().expect_offense(r#"travel_to(DateTime.now)
^^^^^^^^^^^^^^^^^^^^^^^ Use `freeze_time` instead of `travel_to`.
"#);
}

#[test]
fn flags_time_current_and_zoned() {
    test().expect_offense(r#"travel_to(Time.current)
^^^^^^^^^^^^^^^^^^^^^^^ Use `freeze_time` instead of `travel_to`.
"#);
    test().expect_offense(r#"travel_to(Time.zone.now)
^^^^^^^^^^^^^^^^^^^^^^^^ Use `freeze_time` instead of `travel_to`.
"#);
}

#[test]
fn flags_conversions() {
    test().expect_offense(r#"travel_to(Time.now.in_time_zone)
^^^^^^^^^^^^^^^^^^^^^^^^^^^^^^^^ Use `freeze_time` instead of `travel_to`.
"#);
    test().expect_offense(r#"travel_to(Time.current.to_time)
^^^^^^^^^^^^^^^^^^^^^^^^^^^^^^^ Use `freeze_time` instead of `travel_to`.
"#);
}

#[test]
fn flags_cbase_forms() {
    test().expect_offense(r#"travel_to(::Time.now)
^^^^^^^^^^^^^^^^^^^^^ Use `freeze_time` instead of `travel_to`.
"#);
    test().expect_offense(r#"travel_to(::Time.zone.now)
^^^^^^^^^^^^^^^^^^^^^^^^^^ Use `freeze_time` instead of `travel_to`.
"#);
}

#[test]
fn corrects_to_freeze_time() {
    test().expect_correction(
        r#"travel_to(Time.now)
^^^^^^^^^^^^^^^^^^^ Use `freeze_time` instead of `travel_to`.
"#,
        "freeze_time\n",
    );
}

#[test]
fn corrects_block_form() {
    test().expect_correction(
        r#"travel_to(Time.now) do
^^^^^^^^^^^^^^^^^^^ Use `freeze_time` instead of `travel_to`.
  do_something
end
"#,
        r#"freeze_time do
  do_something
end
"#,
    );
}

#[test]
fn corrects_block_pass() {
    test().expect_correction(
        r#"travel_to(Time.current, &example)
^^^^^^^^^^^^^^^^^^^^^^^^^^^^^^^^^ Use `freeze_time` instead of `travel_to`.
"#,
        "freeze_time(&example)\n",
    );
}

#[test]
fn does_not_flag_non_current() {
    test().expect_no_offenses("travel_to(Time.current.yesterday)\n");
    test().expect_no_offenses("travel_to(DateTime.next_day)\n");
}

#[test]
fn does_not_flag_bare_current() {
    test().expect_no_offenses("travel_to(current)\n");
}

#[test]
fn does_not_flag_with_args() {
    test().expect_no_offenses("travel_to(DateTime.new(2022, 5, 3, 12, 0, 0))\n");
    test().expect_no_offenses("travel_to(Time.new(2019, 4, 3, 12, 30).in_time_zone)\n");
}

#[test]
fn does_not_flag_without_argument() {
    test().expect_no_offenses("travel_to\n");
}

#[test]
fn does_not_flag_freeze_time() {
    test().expect_no_offenses("freeze_time\n");
}
