#![allow(dead_code, unused_imports)]

use murphy_rails::ast::{IfKeyword, Node, NodeKind as K, Range, SourceFile};
use murphy_rails::report::{Edit, Offense};
use murphy_rails::cops::render_inline::RenderInline;

type Options = ();

/// Runs the rule on every node of the file, in document order.
fn run(f: &SourceFile, o: &Options) -> Vec<Offense> {
    let _ = o;
    let mut out = Vec::new();
    for i in 0..f.nodes.len() {
        match &f.nodes[i].kind {
            K::Send { .. } => out.extend(RenderInline.check_send(f, i)),
            _ => {}
        }
    }
    out
}

/// A node without call details.
fn n(kind: K, start: usize, end: usize, name_start: usize, name_end: usize, parent: Option<usize>) -> Node {
    c(kind, start, end, name_start, name_end, parent, None, None, false, None)
}

/// A node with its call details.
fn c(
    kind: K,
    start: usize,
    end: usize,
    name_start: usize,
    name_end: usize,
    parent: Option<usize>,
    dot: Option<(usize, usize)>,
    op: Option<(usize, usize)>,
    parenthesized: bool,
    paren_end: Option<usize>,
) -> Node {
    Node {
        kind,
        range: Range { start, end },
        name_range: Range { start: name_start, end: name_end },
        dot_range: dot.map(|(s, e)| Range { start: s, end: e }),
        operator_range: op.map(|(s, e)| Range { start: s, end: e }),
        parent,
        parenthesized,
        paren_end,
    }
}

/// How the rule is run: target Rails version, file path and options.
struct Case<'a> {
    major: u32,
    minor: u32,
    path: &'a str,
    options: Option<&'a Options>,
}

fn test<'a>() -> Case<'a> {
    Case { major: 8, minor: 0, path: "test.rb", options: None }
}

fn run_cop(src: &str) -> Vec<Offense> {
    test().offenses(src)
}

/// The offenses of a run, and all their edits.
struct Run {
    offenses: Vec<Offense>,
    edits: Vec<Edit>,
}

fn run_cop_with_edits(src: &str) -> Run {
    let offenses = test().offenses(src);
    let mut edits = Vec::new();
    for o in &offenses {
        for e in &o.edits {
            edits.push(Edit { range: e.range, replacement: e.replacement.clone() });
        }
    }
    Run { offenses, edits }
}

/// The source without its `^^^ message` lines, and the marks: line,
/// column, width and message.
fn split_marks(text: &str) -> (String, Vec<(usize, usize, usize, String)>) {
    let mut src = String::new();
    let mut marks = Vec::new();
    let mut line = 0usize;
    for l in text.split_inclusive('\n') {
        let t = l.trim_start_matches(' ');
        if t.starts_with('^') {
            let body = t.trim_end_matches('\n');
            let width = body.chars().take_while(|&ch| ch == '^').count();
            let rest = &body[width..];
            let msg = rest.strip_prefix(' ').unwrap_or(rest);
            marks.push((line - 1, l.len() - t.len(), width, msg.to_string()));
        } else {
            src.push_str(l);
            line += 1;
        }
    }
    (src, marks)
}

/// The marks of offenses: a span over several lines is marked to the end
/// of its first line.
fn marks_of(src: &str, offenses: &[Offense]) -> Vec<(usize, usize, usize, String)> {
    let chars: Vec<char> = src.chars().collect();
    let mut out = Vec::new();
    for o in offenses {
        let (s, e) = (o.range.start, o.range.end);
        let line = chars[..s].iter().filter(|&&ch| ch == '\n').count();
        let line_start = chars[..s].iter().rposition(|&ch| ch == '\n').map_or(0, |p| p + 1);
        let line_end = chars[s..].iter().position(|&ch| ch == '\n').map_or(chars.len(), |p| s + p);
        let col = s - line_start;
        let width = if e <= line_end { e - s } else { line_end - s };
        out.push((line, col, width, o.message.clone()));
    }
    out.sort();
    out
}

/// The source with every offense's edits applied, in order of position;
/// an edit overlapping one already applied is left out.
fn corrected(src: &str, offenses: &[Offense]) -> String {
    let chars: Vec<char> = src.chars().collect();
    let mut edits: Vec<(usize, usize, usize, String)> = Vec::new();
    for o in offenses {
        for e in &o.edits {
            edits.push((e.range.start, e.range.end, edits.len(), e.replacement.clone()));
        }
    }
    edits.sort();
    let mut out = String::new();
    let mut pos = 0usize;
    for (s, e, _, r) in edits {
        if s < pos {
            continue;
        }
        out.extend(chars[pos..s].iter());
        out.push_str(&r);
        pos = e;
    }
    out.extend(chars[pos..].iter());
    out
}

impl<'a> Case<'a> {
    fn with_target_rails_version(mut self, major: u32, minor: u32) -> Self {
        self.major = major;
        self.minor = minor;
        self
    }

    fn with_file_path(mut self, path: &'a str) -> Self {
        self.path = path;
        self
    }

    fn with_options(mut self, options: &'a Options) -> Self {
        self.options = Some(options);
        self
    }

    fn offenses(&self, src: &str) -> Vec<Offense> {
        let file = SourceFile {
            source: src.to_string(),
            file_path: self.path.to_string(),
            nodes: tree(src),
            rails_major: self.major,
            rails_minor: self.minor,
        };
        let default = Options::default();
        run(&file, self.options.unwrap_or(&default))
    }

    fn expect_offense<S: AsRef<str>>(self, annotated: S) -> Self {
        let annotated = annotated.as_ref();
        let (src, marks) = split_marks(annotated);
        let mut expected = marks;
        expected.sort();
        assert_eq!(marks_of(&src, &self.offenses(&src)), expected);
        self
    }

    fn expect_no_offenses<S: AsRef<str>>(self, src: S) -> Self {
        let src = src.as_ref();
        let found = self.offenses(src);
        assert!(found.is_empty(), "unexpected offenses: {:?}", marks_of(src, &found));
        self
    }

    fn expect_correction<S: AsRef<str>>(self, annotated: S, expected: &str) -> Self {
        let annotated = annotated.as_ref();
        let (src, marks) = split_marks(annotated);
        let found = self.offenses(&src);
        let mut want = marks;
        want.sort();
        assert_eq!(marks_of(&src, &found), want);
        assert_eq!(corrected(&src, &found), expected);
        self
    }
}

/// The syntax tree of each source used below.
fn tree(src: &str) -> Vec<Node> {
    match src {
        "render status: 200, inline: 'inline template'\n" => vec![
            n(K::Send { receiver: None, method: "render".into(), args: vec![1] }, 0, 45, 0, 6, None),
            n(K::Hash(vec![2, 5]), 7, 45, 7, 45, Some(0)),
            c(K::Pair { key: 3, value: 4 }, 7, 18, 7, 18, Some(1), None, Some((13, 14)), false, None),
            n(K::Sym("status".into()), 7, 13, 7, 13, Some(2)),
            n(K::Int(200), 15, 18, 15, 18, Some(2)),
            c(K::Pair { key: 6, value: 7 }, 20, 45, 20, 45, Some(1), None, Some((26, 27)), false, None),
            n(K::Sym("inline".into()), 20, 26, 20, 26, Some(5)),
            n(K::Str("inline template".into()), 28, 45, 28, 45, Some(5)),
        ],
        "render status: 200, 'inline' => 'inline template'\n" => vec![
            n(K::Send { receiver: None, method: "render".into(), args: vec![1] }, 0, 49, 0, 6, None),
            n(K::Hash(vec![2, 5]), 7, 49, 7, 49, Some(0)),
            c(K::Pair { key: 3, value: 4 }, 7, 18, 7, 18, Some(1), None, Some((13, 14)), false, None),
            n(K::Sym("status".into()), 7, 13, 7, 13, Some(2)),
            n(K::Int(200), 15, 18, 15, 18, Some(2)),
            c(K::Pair { key: 6, value: 7 }, 20, 49, 20, 49, Some(1), None, Some((29, 31)), false, None),
            n(K::Str("inline".into()), 20, 28, 20, 28, Some(5)),
            n(K::Str("inline template".into()), 32, 49, 32, 49, Some(5)),
        ],
        "render :index\n" => vec![
            n(K::Send { receiver: None, method: "render".into(), args: vec![1] }, 0, 13, 0, 6, None),
            n(K::Sym("index".into()), 7, 13, 7, 13, Some(0)),
        ],
        "render json: users, serializer: UserSerializer\n" => vec![
            n(K::Send { receiver: None, method: "render".into(), args: vec![1] }, 0, 46, 0, 6, None),
            n(K::Hash(vec![2, 5]), 7, 46, 7, 46, Some(0)),
            c(K::Pair { key: 3, value: 4 }, 7, 18, 7, 18, Some(1), None, Some((11, 12)), false, None),
            n(K::Sym("json".into()), 7, 11, 7, 11, Some(2)),
            n(K::Send { receiver: None, method: "users".into(), args: vec![] }, 13, 18, 13, 18, Some(2)),
            c(K::Pair { key: 6, value: 7 }, 20, 46, 20, 46, Some(1), None, Some((30, 31)), false, None),
            n(K::Sym("serializer".into()), 20, 30, 20, 30, Some(5)),
            n(K::Const { scope: None, name: "UserSerializer".into() }, 32, 46, 32, 46, Some(5)),
        ],
        r#"serializer = users.respond_to?(:each) ? :each_serializer : :serializer
render json: users, serializer => UserSerializer
"# => vec![
            n(K::Begin(vec![1, 8]), 0, 119, 0, 119, None),
            c(K::Lvasgn { name: "serializer".into(), value: Some(2) }, 0, 70, 0, 10, Some(0), None, Some((11, 12)), false, None),
            n(K::If { cond: 3, then_branch: Some(6), else_branch: Some(7), keyword: IfKeyword::Ternary, modifier: false, has_else: true }, 13, 70, 38, 39, Some(1)),
            c(K::Send { receiver: Some(4), method: "respond_to?".into(), args: vec![5] }, 13, 37, 19, 30, Some(2), Some((18, 19)), None, true, Some(37)),
            n(K::Send { receiver: None, method: "users".into(), args: vec![] }, 13, 18, 13, 18, Some(3)),
            n(K::Sym("each".into()), 31, 36, 31, 36, Some(3)),
            n(K::Sym("each_serializer".into()), 40, 56, 40, 56, Some(2)),
            n(K::Sym("serializer".into()), 59, 70, 59, 70, Some(2)),
            n(K::Send { receiver: None, method: "render".into(), args: vec![9] }, 71, 119, 71, 77, Some(0)),
            n(K::Hash(vec![10, 13]), 78, 119, 78, 119, Some(8)),
            c(K::Pair { key: 11, value: 12 }, 78, 89, 78, 89, Some(9), None, Some((82, 83)), false, None),
            n(K::Sym("json".into()), 78, 82, 78, 82, Some(10)),
            n(K::Send { receiver: None, method: "users".into(), args: vec![] }, 84, 89, 84, 89, Some(10)),
            c(K::Pair { key: 14, value: 15 }, 91, 119, 91, 119, Some(9), None, Some((102, 104)), false, None),
            n(K::Lvar("serializer".into()), 91, 101, 91, 101, Some(13)),
            n(K::Const { scope: None, name: "UserSerializer".into() }, 105, 119, 105, 119, Some(13)),
        ],
        "obj.render inline: 'x'\n" => vec![
            c(K::Send { receiver: Some(1), method: "render".into(), args: vec![2] }, 0, 22, 4, 10, None, Some((3, 4)), None, false, None),
            n(K::Send { receiver: None, method: "obj".into(), args: vec![] }, 0, 3, 0, 3, Some(0)),
            n(K::Hash(vec![3]), 11, 22, 11, 22, Some(0)),
            c(K::Pair { key: 4, value: 5 }, 11, 22, 11, 22, Some(2), None, Some((17, 18)), false, None),
            n(K::Sym("inline".into()), 11, 17, 11, 17, Some(3)),
            n(K::Str("x".into()), 19, 22, 19, 22, Some(3)),
        ],
        _ => panic!("no syntax tree for {:?}", src),
    }
}


#[test]
fn flags_inline_sym_key() {
    test().expect_offense(r#"render status: 200, inline: 'inline template'
^^^^^^^^^^^^^^^^^^^^^^^^^^^^^^^^^^^^^^^^^^^^^ Prefer using a template over inline rendering.
"#);
}

#[test]
fn flags_inline_str_key() {
    test().expect_offense(r#"render status: 200, 'inline' => 'inline template'
^^^^^^^^^^^^^^^^^^^^^^^^^^^^^^^^^^^^^^^^^^^^^^^^^ Prefer using a template over inline rendering.
"#);
}

#[test]
fn allows_template_render() {
    test().expect_no_offenses("render :index\n");
}

#[test]
fn render_inline_allows_other_options() {
    test()
        .expect_no_offenses("render json: users, serializer: UserSerializer\n");
}

#[test]
fn allows_variable_key() {
    test().expect_no_offenses(r#"serializer = users.respond_to?(:each) ? :each_serializer : :serializer
render json: users, serializer => UserSerializer
"#);
}

#[test]
fn render_inline_allows_receiver() {
    test()
        .expect_no_offenses("obj.render inline: 'x'\n");
}
