#![allow(dead_code, unused_imports)]

use murphy_rails::ast::{IfKeyword, Node, NodeKind as K, Range, SourceFile};
use murphy_rails::report::{Edit, Offense};
use murphy_rails::cops::helper_instance_variable::HelperInstanceVariable;

type Options = ();

/// Runs the rule on every node of the file, in document order.
fn run(f: &SourceFile, o: &Options) -> Vec<Offense> {
    let _ = o;
    let mut out = Vec::new();
    for i in 0..f.nodes.len() {
        match &f.nodes[i].kind {
            K::Ivar(..) => out.extend(HelperInstanceVariable.check_ivar(f, i)),
            K::Ivasgn { .. } => out.extend(HelperInstanceVariable.check_ivasgn(f, i)),
            _ => {}
        }
    }
    out
}

/// A node without call details.
fn n(kind: K, start: usize, end: usize, name_start: usize, name_end: usize, parent: Option<usize>) -> Node {
    c(kind, start, end, name_start, name_end, parent, None, None, false, None)
}

/// A node with its call details.
fn c(
    kind: K,
    start: usize,
    end: usize,
    name_start: usize,
    name_end: usize,
    parent: Option<usize>,
    dot: Option<(usize, usize)>,
    op: Option<(usize, usize)>,
    parenthesized: bool,
    paren_end: Option<usize>,
) -> Node {
    Node {
        kind,
        range: Range { start, end },
        name_range: Range { start: name_start, end: name_end },
        dot_range: dot.map(|(s, e)| Range { start: s, end: e }),
        operator_range: op.map(|(s, e)| Range { start: s, end: e }),
        parent,
        parenthesized,
        paren_end,
    }
}

/// How the rule is run: target Rails version, file path and options.
struct Case<'a> {
    major: u32,
    minor: u32,
    path: &'a str,
    options: Option<&'a Options>,
}

fn test<'a>() -> Case<'a> {
    Case { major: 8, minor: 0, path: "test.rb", options: None }
}

fn run_cop(src: &str) -> Vec<Offense> {
    test().offenses(src)
}

/// The offenses of a run, and all their edits.
struct Run {
    offenses: Vec<Offense>,
    edits: Vec<Edit>,
}

fn run_cop_with_edits(src: &str) -> Run {
    let offenses = test().offenses(src);
    let mut edits = Vec::new();
    for o in &offenses {
        for e in &o.edits {
            edits.push(Edit { range: e.range, replacement: e.replacement.clone() });
        }
    }
    Run { offenses, edits }
}

/// The source without its `^^^ message` lines, and the marks: line,
/// column, width and message.
fn split_marks(text: &str) -> (String, Vec<(usize, usize, usize, String)>) {
    let mut src = String::new();
    let mut marks = Vec::new();
    let mut line = 0usize;
    for l in text.split_inclusive('\n') {
        let t = l.trim_start_matches(' ');
        if t.starts_with('^') {
            let body = t.trim_end_matches('\n');
            let width = body.chars().take_while(|&ch| ch == '^').count();
            let rest = &body[width..];
            let msg = rest.strip_prefix(' ').unwrap_or(rest);
            marks.push((line - 1, l.len() - t.len(), width, msg.to_string()));
        } else {
            src.push_str(l);
            line += 1;
        }
    }
    (src, marks)
}

/// The marks of offenses: a span over several lines is marked to the end
/// of its first line.
fn marks_of(src: &str, offenses: &[Offense]) -> Vec<(usize, usize, usize, String)> {
    let chars: Vec<char> = src.chars().collect();
    let mut out = Vec::new();
    for o in offenses {
        let (s, e) = (o.range.start, o.range.end);
        let line = chars[..s].iter().filter(|&&ch| ch == '\n').count();
        let line_start = chars[..s].iter().rposition(|&ch| ch == '\n').map_or(0, |p| p + 1);
        let line_end = chars[s..].iter().position(|&ch| ch == '\n').map_or(chars.len(), |p| s + p);
        let col = s - line_start;
        let width = if e <= line_end { e - s } else { line_end - s };
        out.push((line, col, width, o.message.clone()));
    }
    out.sort();
    out
}

/// The source with every offense's edits applied, in order of position;
/// an edit overlapping one already applied is left out.
fn corrected(src: &str, offenses: &[Offense]) -> String {
    let chars: Vec<char> = src.chars().collect();
    let mut edits: Vec<(usize, usize, usize, String)> = Vec::new();
    for o in offenses {
        for e in &o.edits {
            edits.push((e.range.start, e.range.end, edits.len(), e.replacement.clone()));
        }
    }
    edits.sort();
    let mut out = String::new();
    let mut pos = 0usize;
    for (s, e, _, r) in edits {
        if s < pos {
            continue;
        }
        out.extend(chars[pos..s].iter());
        out.push_str(&r);
        pos = e;
    }
    out.extend(chars[pos..].iter());
    out
}

impl<'a> Case<'a> {
    fn with_target_rails_version(mut self, major: u32, minor: u32) -> Self {
        self.major = major;
        self.minor = minor;
        self
    }

    fn with_file_path(mut self, path: &'a str) -> Self {
        self.path = path;
        self
    }

    fn with_options(mut self, options: &'a Options) -> Self {
        self.options = Some(options);
        self
    }

    fn offenses(&self, src: &str) -> Vec<Offense> {
        let file = SourceFile {
            source: src.to_string(),
            file_path: self.path.to_string(),
            nodes: tree(src),
            rails_major: self.major,
            rails_minor: self.minor,
        };
        let default = Options::default();
        run(&file, self.options.unwrap_or(&default))
    }

    fn expect_offense<S: AsRef<str>>(self, annotated: S) -> Self {
        let annotated = annotated.as_ref();
        let (src, marks) = split_marks(annotated);
        let mut expected = marks;
        expected.sort();
        assert_eq!(marks_of(&src, &self.offenses(&src)), expected);
        self
    }

    fn expect_no_offenses<S: AsRef<str>>(self, src: S) -> Self {
        let src = src.as_ref();
        let found = self.offenses(src);
        assert!(found.is_empty(), "unexpected offenses: {:?}", marks_of(src, &found));
        self
    }

    fn expect_correction<S: AsRef<str>>(self, annotated: S, expected: &str) -> Self {
        let annotated = annotated.as_ref();
        let (src, marks) = split_marks(annotated);
        let found = self.offenses(&src);
        let mut want = marks;
        want.sort();
        assert_eq!(marks_of(&src, &found), want);
        assert_eq!(corrected(&src, &found), expected);
        self
    }
}

/// The syntax tree of each source used below.
fn tree(src: &str) -> Vec<Node> {
    match src {
        r#"def welcome_message
  "Hello #{@user.name}"
end
"# => vec![
            n(K::Def { name: "welcome_message".into(), args: 1, body: Some(2) }, 0, 47, 4, 19, None),
            n(K::Args(vec![]), 19, 19, 19, 19, Some(0)),
            n(K::Dstr(vec![3, 4]), 22, 43, 22, 43, Some(0)),
            n(K::Str("Hello ".into()), 23, 29, 23, 29, Some(2)),
            n(K::Begin(vec![5]), 29, 42, 29, 42, Some(2)),
            c(K::Send { receiver: Some(6), method: "name".into(), args: vec![] }, 31, 41, 37, 41, Some(4), Some((36, 37)), None, false, None),
            n(K::Ivar("@user".into()), 31, 36, 31, 36, Some(5)),
        ],
        r#"def welcome_message(user)
  @user_name = user.name
end
"# => vec![
            n(K::Def { name: "welcome_message".into(), args: 1, body: Some(3) }, 0, 54, 4, 19, None),
            n(K::Args(vec![2]), 19, 25, 19, 25, Some(0)),
            n(K::Arg("user".into()), 20, 24, 20, 24, Some(1)),
            c(K::Ivasgn { name: "@user_name".into(), value: Some(4) }, 28, 50, 28, 38, Some(0), None, Some((39, 40)), false, None),
            c(K::Send { receiver: Some(5), method: "name".into(), args: vec![] }, 41, 50, 46, 50, Some(3), Some((45, 46)), None, false, None),
            n(K::Lvar("user".into()), 41, 45, 41, 45, Some(4)),
        ],
        r#"def welcome_message(user)
  "Hello #{user.name}"
end
"# => vec![
            n(K::Def { name: "welcome_message".into(), args: 1, body: Some(3) }, 0, 52, 4, 19, None),
            n(K::Args(vec![2]), 19, 25, 19, 25, Some(0)),
            n(K::Arg("user".into()), 20, 24, 20, 24, Some(1)),
            n(K::Dstr(vec![4, 5]), 28, 48, 28, 48, Some(0)),
            n(K::Str("Hello ".into()), 29, 35, 29, 35, Some(3)),
            n(K::Begin(vec![6]), 35, 47, 35, 47, Some(3)),
            c(K::Send { receiver: Some(7), method: "name".into(), args: vec![] }, 37, 46, 42, 46, Some(5), Some((41, 42)), None, false, None),
            n(K::Lvar("user".into()), 37, 41, 37, 41, Some(6)),
        ],
        r#"def foo
  @cache ||= heavy_load
end
"# => vec![
            n(K::Def { name: "foo".into(), args: 1, body: Some(2) }, 0, 35, 4, 7, None),
            n(K::Args(vec![]), 7, 7, 7, 7, Some(0)),
            c(K::OrAsgn { target: 3, value: 4 }, 10, 31, 10, 31, Some(0), None, Some((17, 20)), false, None),
            n(K::Ivasgn { name: "@cache".into(), value: None }, 10, 16, 10, 16, Some(2)),
            n(K::Send { receiver: None, method: "heavy_load".into(), args: vec![] }, 21, 31, 21, 31, Some(2)),
        ],
        r#"module ButtonHelper
  class Button
    def initialize(text:)
      @text = text
    end
  end

  def button(**args)
    render Button.new(**args)
  end
end
"# => vec![
            n(K::Module { name: 1, body: Some(2) }, 0, 155, 0, 6, None),
            n(K::Const { scope: None, name: "ButtonHelper".into() }, 7, 19, 7, 19, Some(0)),
            n(K::Begin(vec![3, 10]), 22, 151, 22, 151, Some(0)),
            n(K::Class { name: 4, superclass: None, body: Some(5) }, 22, 93, 22, 27, Some(2)),
            n(K::Const { scope: None, name: "Button".into() }, 28, 34, 28, 34, Some(3)),
            n(K::Def { name: "initialize".into(), args: 6, body: Some(8) }, 39, 87, 43, 53, Some(3)),
            n(K::Args(vec![7]), 53, 60, 53, 60, Some(5)),
            n(K::Other(vec![]), 54, 59, 54, 59, Some(6)),
            c(K::Ivasgn { name: "@text".into(), value: Some(9) }, 67, 79, 67, 72, Some(5), None, Some((73, 74)), false, None),
            n(K::Lvar("text".into()), 75, 79, 75, 79, Some(8)),
            n(K::Def { name: "button".into(), args: 11, body: Some(13) }, 97, 151, 101, 107, Some(2)),
            n(K::Args(vec![12]), 107, 115, 107, 115, Some(10)),
            n(K::Other(vec![]), 108, 114, 108, 114, Some(11)),
            n(K::Send { receiver: None, method: "render".into(), args: vec![14] }, 120, 145, 120, 126, Some(10)),
            c(K::Send { receiver: Some(15), method: "new".into(), args: vec![16] }, 127, 145, 134, 137, Some(13), Some((133, 134)), None, true, Some(145)),
            n(K::Const { scope: None, name: "Button".into() }, 127, 133, 127, 133, Some(14)),
            n(K::Hash(vec![17]), 138, 144, 138, 144, Some(14)),
            n(K::Kwsplat(18), 138, 144, 138, 144, Some(16)),
            n(K::Lvar("args".into()), 140, 144, 140, 144, Some(17)),
        ],
        r#"class MyFormBuilder < ActionView::Helpers::FormBuilder
  def do_something
    @template
    @template = do_something
  end
end
"# => vec![
            n(K::Class { name: 1, superclass: Some(2), body: Some(5) }, 0, 126, 0, 5, None),
            n(K::Const { scope: None, name: "MyFormBuilder".into() }, 6, 19, 6, 19, Some(0)),
            n(K::Const { scope: Some(3), name: "FormBuilder".into() }, 22, 54, 43, 54, Some(0)),
            n(K::Const { scope: Some(4), name: "Helpers".into() }, 22, 41, 34, 41, Some(2)),
            n(K::Const { scope: None, name: "ActionView".into() }, 22, 32, 22, 32, Some(3)),
            n(K::Def { name: "do_something".into(), args: 6, body: Some(7) }, 57, 122, 61, 73, Some(0)),
            n(K::Args(vec![]), 73, 73, 73, 73, Some(5)),
            n(K::Begin(vec![8, 9]), 78, 116, 78, 116, Some(5)),
            n(K::Ivar("@template".into()), 78, 87, 78, 87, Some(7)),
            c(K::Ivasgn { name: "@template".into(), value: Some(10) }, 92, 116, 92, 101, Some(7), None, Some((102, 103)), false, None),
            n(K::Send { receiver: None, method: "do_something".into(), args: vec![] }, 104, 116, 104, 116, Some(9)),
        ],
        _ => panic!("no syntax tree for {:?}", src),
    }
}


#[test]
fn flags_ivar_read() {
    test().expect_offense(r#"def welcome_message
  "Hello #{@user.name}"
           ^^^^^ Do not use instance variables in helpers.
end
"#);
}

#[test]
fn flags_ivasgn() {
    test().expect_offense(r#"def welcome_message(user)
  @user_name = user.name
  ^^^^^^^^^^ Do not use instance variables in helpers.
end
"#);
}

#[test]
fn does_not_flag_local() {
    test().expect_no_offenses(r#"def welcome_message(user)
  "Hello #{user.name}"
end
"#);
}

#[test]
fn does_not_flag_memoization() {
    test().expect_no_offenses(r#"def foo
  @cache ||= heavy_load
end
"#);
}

#[test]
fn does_not_flag_inside_class() {
    test().expect_no_offenses(r#"module ButtonHelper
  class Button
    def initialize(text:)
      @text = text
    end
  end

  def button(**args)
    render Button.new(**args)
  end
end
"#);
}

#[test]
fn does_not_flag_form_builder_class() {
    test().expect_no_offenses(r#"class MyFormBuilder < ActionView::Helpers::FormBuilder
  def do_something
    @template
    @template = do_something
  end
end
"#);
}
