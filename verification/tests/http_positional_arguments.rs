#![allow(dead_code, unused_imports)]

use murphy_rails::ast::{IfKeyword, Node, NodeKind as K, Range, SourceFile};
use murphy_rails::report::{Edit, Offense};
use murphy_rails::cops::http_positional_arguments::HttpPositionalArguments;

type Options = ();

/// Runs the rule on every node of the file, in document order.
fn run(f: &SourceFile, o: &Options) -> Vec<Offense> {
    let _ = o;
    let mut out = Vec::new();
    for i in 0..f.nodes.len() {
        match &f.nodes[i].kind {
            K::Send { .. } => out.extend(HttpPositionalArguments.check_send(f, i)),
            _ => {}
        }
    }
    out
}

/// A node without call details.
fn n(kind: K, start: usize, end: usize, name_start: usize, name_end: usize, parent: Option<usize>) -> Node {
    c(kind, start, end, name_start, name_end, parent, None, None, false, None)
}

/// A node with its call details.
fn c(
    kind: K,
    start: usize,
    end: usize,
    name_start: usize,
    name_end: usize,
    parent: Option<usize>,
    dot: Option<(usize, usize)>,
    op: Option<(usize, usize)>,
    parenthesized: bool,
    paren_end: Option<usize>,
) -> Node {
    Node {
        kind,
        range: Range { start, end },
        name_range: Range { start: name_start, end: name_end },
        dot_range: dot.map(|(s, e)| Range { start: s, end: e }),
        operator_range: op.map(|(s, e)| Range { start: s, end: e }),
        parent,
        parenthesized,
        paren_end,
    }
}

/// How the rule is run: target Rails version, file path and options.
struct Case<'a> {
    major: u32,
    minor: u32,
    path: &'a str,
    options: Option<&'a Options>,
}

fn test<'a>() -> Case<'a> {
    Case { major: 8, minor: 0, path: "test.rb", options: None }
}

fn run_cop(src: &str) -> Vec<Offense> {
    test().offenses(src)
}

/// The offenses of a run, and all their edits.
struct Run {
    offenses: Vec<Offense>,
    edits: Vec<Edit>,
}

fn run_cop_with_edits(src: &str) -> Run {
    let offenses = test().offenses(src);
    let mut edits = Vec::new();
    for o in &offenses {
        for e in &o.edits {
            edits.push(Edit { range: e.range, replacement: e.replacement.clone() });
        }
    }
    Run { offenses, edits }
}

/// The source without its `^^^ message` lines, and the marks: line,
/// column, width and message.
fn split_marks(text: &str) -> (String, Vec<(usize, usize, usize, String)>) {
    let mut src = String::new();
    let mut marks = Vec::new();
    let mut line = 0usize;
    for l in text.split_inclusive('\n') {
        let t = l.trim_start_matches(' ');
        if t.starts_with('^') {
            let body = t.trim_end_matches('\n');
            let width = body.chars().take_while(|&ch| ch == '^').count();
            let rest = &body[width..];
            let msg = rest.strip_prefix(' ').unwrap_or(rest);
            marks.push((line - 1, l.len() - t.len(), width, msg.to_string()));
        } else {
            src.push_str(l);
            line += 1;
        }
    }
    (src, marks)
}

/// The marks of offenses: a span over several lines is marked to the end
/// of its first line.
fn marks_of(src: &str, offenses: &[Offense]) -> Vec<(usize, usize, usize, String)> {
    let chars: Vec<char> = src.chars().collect();
    let mut out = Vec::new();
    for o in offenses {
        let (s, e) = (o.range.start, o.range.end);
        let line = chars[..s].iter().filter(|&&ch| ch == '\n').count();
        let line_start = chars[..s].iter().rposition(|&ch| ch == '\n').map_or(0, |p| p + 1);
        let line_end = chars[s..].iter().position(|&ch| ch == '\n').map_or(chars.len(), |p| s + p);
        let col = s - line_start;
        let width = if e <= line_end { e - s } else { line_end - s };
        out.push((line, col, width, o.message.clone()));
    }
    out.sort();
    out
}

/// The source with every offense's edits applied, in order of position;
/// an edit overlapping one already applied is left out.
fn corrected(src: &str, offenses: &[Offense]) -> String {
    let chars: Vec<char> = src.chars().collect();
    let mut edits: Vec<(usize, usize, usize, String)> = Vec::new();
    for o in offenses {
        for e in &o.edits {
            edits.push((e.range.start, e.range.end, edits.len(), e.replacement.clone()));
        }
    }
    edits.sort();
    let mut out = String::new();
    let mut pos = 0usize;
    for (s, e, _, r) in edits {
        if s < pos {
            continue;
        }
        out.extend(chars[pos..s].iter());
        out.push_str(&r);
        pos = e;
    }
    out.extend(chars[pos..].iter());
    out
}

impl<'a> Case<'a> {
    fn with_target_rails_version(mut self, major: u32, minor: u32) -> Self {
        self.major = major;
        self.minor = minor;
        self
    }

    fn with_file_path(mut self, path: &'a str) -> Self {
        self.path = path;
        self
    }

    fn with_options(mut self, options: &'a Options) -> Self {
        self.options = Some(options);
        self
    }

    fn offenses(&self, src: &str) -> Vec<Offense> {
        let file = SourceFile {
            source: src.to_string(),
            file_path: self.path.to_string(),
            nodes: tree(src),
            rails_major: self.major,
            rails_minor: self.minor,
        };
        let default = Options::default();
        run(&file, self.options.unwrap_or(&default))
    }

    fn expect_offense<S: AsRef<str>>(self, annotated: S) -> Self {
        let annotated = annotated.as_ref();
        let (src, marks) = split_marks(annotated);
        let mut expected = marks;
        expected.sort();
        assert_eq!(marks_of(&src, &self.offenses(&src)), expected);
        self
    }

    fn expect_no_offenses<S: AsRef<str>>(self, src: S) -> Self {
        let src = src.as_ref();
        let found = self.offenses(src);
        assert!(found.is_empty(), "unexpected offenses: {:?}", marks_of(src, &found));
        self
    }

    fn expect_correction<S: AsRef<str>>(self, annotated: S, expected: &str) -> Self {
        let annotated = annotated.as_ref();
        let (src, marks) = split_marks(annotated);
        let found = self.offenses(&src);
        let mut want = marks;
        want.sort();
        assert_eq!(marks_of(&src, &found), want);
        assert_eq!(corrected(&src, &found), expected);
        self
    }
}

/// The syntax tree of each source used below.
fn tree(src: &str) -> Vec<Node> {
    match src {
        "get :create, user_id: @user.id\n" => vec![
            n(K::Send { receiver: None, method: "get".into(), args: vec![1, 2] }, 0, 30, 0, 3, None),
            n(K::Sym("create".into()), 4, 11, 4, 11, Some(0)),
            n(K::Hash(vec![3]), 13, 30, 13, 30, Some(0)),
            c(K::Pair { key: 4, value: 5 }, 13, 30, 13, 30, Some(2), None, Some((20, 21)), false, None),
            n(K::Sym("user_id".into()), 13, 20, 13, 20, Some(3)),
            c(K::Send { receiver: Some(6), method: "id".into(), args: vec![] }, 22, 30, 28, 30, Some(3), Some((27, 28)), None, false, None),
            n(K::Ivar("@user".into()), 22, 27, 22, 27, Some(5)),
        ],
        "post :create, user_id: @user.id\n" => vec![
            n(K::Send { receiver: None, method: "post".into(), args: vec![1, 2] }, 0, 31, 0, 4, None),
            n(K::Sym("create".into()), 5, 12, 5, 12, Some(0)),
            n(K::Hash(vec![3]), 14, 31, 14, 31, Some(0)),
            c(K::Pair { key: 4, value: 5 }, 14, 31, 14, 31, Some(2), None, Some((21, 22)), false, None),
            n(K::Sym("user_id".into()), 14, 21, 14, 21, Some(3)),
            c(K::Send { receiver: Some(6), method: "id".into(), args: vec![] }, 23, 31, 29, 31, Some(3), Some((28, 29)), None, false, None),
            n(K::Ivar("@user".into()), 23, 28, 23, 28, Some(5)),
        ],
        "post user_attrs, id: 1\n" => vec![
            n(K::Send { receiver: None, method: "post".into(), args: vec![1, 2] }, 0, 22, 0, 4, None),
            n(K::Send { receiver: None, method: "user_attrs".into(), args: vec![] }, 5, 15, 5, 15, Some(0)),
            n(K::Hash(vec![3]), 17, 22, 17, 22, Some(0)),
            c(K::Pair { key: 4, value: 5 }, 17, 22, 17, 22, Some(2), None, Some((19, 20)), false, None),
            n(K::Sym("id".into()), 17, 19, 17, 19, Some(3)),
            n(K::Int(1), 21, 22, 21, 22, Some(3)),
        ],
        "post(:user_attrs, id: 1)\n" => vec![
            c(K::Send { receiver: None, method: "post".into(), args: vec![1, 2] }, 0, 24, 0, 4, None, None, None, true, Some(24)),
            n(K::Sym("user_attrs".into()), 5, 16, 5, 16, Some(0)),
            n(K::Hash(vec![3]), 18, 23, 18, 23, Some(0)),
            c(K::Pair { key: 4, value: 5 }, 18, 23, 18, 23, Some(2), None, Some((20, 21)), false, None),
            n(K::Sym("id".into()), 18, 20, 18, 20, Some(3)),
            n(K::Int(1), 22, 23, 22, 23, Some(3)),
        ],
        "get '/auth/linkedin/callback', id: 1\n" => vec![
            n(K::Send { receiver: None, method: "get".into(), args: vec![1, 2] }, 0, 36, 0, 3, None),
            n(K::Str("/auth/linkedin/callback".into()), 4, 29, 4, 29, Some(0)),
            n(K::Hash(vec![3]), 31, 36, 31, 36, Some(0)),
            c(K::Pair { key: 4, value: 5 }, 31, 36, 31, 36, Some(2), None, Some((33, 34)), false, None),
            n(K::Sym("id".into()), 31, 33, 31, 33, Some(3)),
            n(K::Int(1), 35, 36, 35, 36, Some(3)),
        ],
        "post :create, confirmation_data\n" => vec![
            n(K::Send { receiver: None, method: "post".into(), args: vec![1, 2] }, 0, 31, 0, 4, None),
            n(K::Sym("create".into()), 5, 12, 5, 12, Some(0)),
            n(K::Send { receiver: None, method: "confirmation_data".into(), args: vec![] }, 14, 31, 14, 31, Some(0)),
        ],
        "post :create, id: 7, format: :rss\n" => vec![
            n(K::Send { receiver: None, method: "post".into(), args: vec![1, 2] }, 0, 33, 0, 4, None),
            n(K::Sym("create".into()), 5, 12, 5, 12, Some(0)),
            n(K::Hash(vec![3, 6]), 14, 33, 14, 33, Some(0)),
            c(K::Pair { key: 4, value: 5 }, 14, 19, 14, 19, Some(2), None, Some((16, 17)), false, None),
            n(K::Sym("id".into()), 14, 16, 14, 16, Some(3)),
            n(K::Int(7), 18, 19, 18, 19, Some(3)),
            c(K::Pair { key: 7, value: 8 }, 21, 33, 21, 33, Some(2), None, Some((27, 28)), false, None),
            n(K::Sym("format".into()), 21, 27, 21, 27, Some(6)),
            n(K::Sym("rss".into()), 29, 33, 29, 33, Some(6)),
        ],
        "get some_path(profile.id), { user_id: @user.id, profile_id: p.id }, 'HTTP_REFERER' => p_url(p.id).to_s\n" => vec![
            n(K::Send { receiver: None, method: "get".into(), args: vec![1, 4, 13] }, 0, 102, 0, 3, None),
            c(K::Send { receiver: None, method: "some_path".into(), args: vec![2] }, 4, 25, 4, 13, Some(0), None, None, true, Some(25)),
            c(K::Send { receiver: Some(3), method: "id".into(), args: vec![] }, 14, 24, 22, 24, Some(1), Some((21, 22)), None, false, None),
            n(K::Send { receiver: None, method: "profile".into(), args: vec![] }, 14, 21, 14, 21, Some(2)),
            n(K::Hash(vec![5, 9]), 27, 66, 27, 66, Some(0)),
            c(K::Pair { key: 6, value: 7 }, 29, 46, 29, 46, Some(4), None, Some((36, 37)), false, None),
            n(K::Sym("user_id".into()), 29, 36, 29, 36, Some(5)),
            c(K::Send { receiver: Some(8), method: "id".into(), args: vec![] }, 38, 46, 44, 46, Some(5), Some((43, 44)), None, false, None),
            n(K::Ivar("@user".into()), 38, 43, 38, 43, Some(7)),
            c(K::Pair { key: 10, value: 11 }, 48, 64, 48, 64, Some(4), None, Some((58, 59)), false, None),
            n(K::Sym("profile_id".into()), 48, 58, 48, 58, Some(9)),
            c(K::Send { receiver: Some(12), method: "id".into(), args: vec![] }, 60, 64, 62, 64, Some(9), Some((61, 62)), None, false, None),
            n(K::Send { receiver: None, method: "p".into(), args: vec![] }, 60, 61, 60, 61, Some(11)),
            n(K::Hash(vec![14]), 68, 102, 68, 102, Some(0)),
            c(K::Pair { key: 15, value: 16 }, 68, 102, 68, 102, Some(13), None, Some((83, 85)), false, None),
            n(K::Str("HTTP_REFERER".into()), 68, 82, 68, 82, Some(14)),
            c(K::Send { receiver: Some(17), method: "to_s".into(), args: vec![] }, 86, 102, 98, 102, Some(14), Some((97, 98)), None, false, None),
            c(K::Send { receiver: None, method: "p_url".into(), args: vec![18] }, 86, 97, 86, 91, Some(16), None, None, true, Some(97)),
            c(K::Send { receiver: Some(19), method: "id".into(), args: vec![] }, 92, 96, 94, 96, Some(17), Some((93, 94)), None, false, None),
            n(K::Send { receiver: None, method: "p".into(), args: vec![] }, 92, 93, 92, 93, Some(18)),
        ],
        "get some_path(profile.id), {}, 'HTTP_REFERER' => p_url(p.id).to_s\n" => vec![
            n(K::Send { receiver: None, method: "get".into(), args: vec![1, 4, 5] }, 0, 65, 0, 3, None),
            c(K::Send { receiver: None, method: "some_path".into(), args: vec![2] }, 4, 25, 4, 13, Some(0), None, None, true, Some(25)),
            c(K::Send { receiver: Some(3), method: "id".into(), args: vec![] }, 14, 24, 22, 24, Some(1), Some((21, 22)), None, false, None),
            n(K::Send { receiver: None, method: "profile".into(), args: vec![] }, 14, 21, 14, 21, Some(2)),
            n(K::Hash(vec![]), 27, 29, 27, 29, Some(0)),
            n(K::Hash(vec![6]), 31, 65, 31, 65, Some(0)),
            c(K::Pair { key: 7, value: 8 }, 31, 65, 31, 65, Some(5), None, Some((46, 48)), false, None),
            n(K::Str("HTTP_REFERER".into()), 31, 45, 31, 45, Some(6)),
            c(K::Send { receiver: Some(9), method: "to_s".into(), args: vec![] }, 49, 65, 61, 65, Some(6), Some((60, 61)), None, false, None),
            c(K::Send { receiver: None, method: "p_url".into(), args: vec![10] }, 49, 60, 49, 54, Some(8), None, None, true, Some(60)),
            c(K::Send { receiver: Some(11), method: "id".into(), args: vec![] }, 55, 59, 57, 59, Some(9), Some((56, 57)), None, false, None),
            n(K::Send { receiver: None, method: "p".into(), args: vec![] }, 55, 56, 55, 56, Some(10)),
        ],
        r#"params = { id: 1 }
post user_attrs, params
"# => vec![
            n(K::Begin(vec![1, 6]), 0, 42, 0, 42, None),
            c(K::Lvasgn { name: "params".into(), value: Some(2) }, 0, 18, 0, 6, Some(0), None, Some((7, 8)), false, None),
            n(K::Hash(vec![3]), 9, 18, 9, 18, Some(1)),
            c(K::Pair { key: 4, value: 5 }, 11, 16, 11, 16, Some(2), None, Some((13, 14)), false, None),
            n(K::Sym("id".into()), 11, 13, 11, 13, Some(3)),
            n(K::Int(1), 15, 16, 15, 16, Some(3)),
            n(K::Send { receiver: None, method: "post".into(), args: vec![7, 8] }, 19, 42, 19, 23, Some(0)),
            n(K::Send { receiver: None, method: "user_attrs".into(), args: vec![] }, 24, 34, 24, 34, Some(6)),
            n(K::Lvar("params".into()), 36, 42, 36, 42, Some(6)),
        ],
        "get :new\n" => vec![
            n(K::Send { receiver: None, method: "get".into(), args: vec![1] }, 0, 8, 0, 3, None),
            n(K::Sym("new".into()), 4, 8, 4, 8, Some(0)),
        ],
        "get\n" => vec![
            n(K::Send { receiver: None, method: "get".into(), args: vec![] }, 0, 3, 0, 3, None),
        ],
        "puts :create, user_id: @user.id\n" => vec![
            n(K::Send { receiver: None, method: "puts".into(), args: vec![1, 2] }, 0, 31, 0, 4, None),
            n(K::Sym("create".into()), 5, 12, 5, 12, Some(0)),
            n(K::Hash(vec![3]), 14, 31, 14, 31, Some(0)),
            c(K::Pair { key: 4, value: 5 }, 14, 31, 14, 31, Some(2), None, Some((21, 22)), false, None),
            n(K::Sym("user_id".into()), 14, 21, 14, 21, Some(3)),
            c(K::Send { receiver: Some(6), method: "id".into(), args: vec![] }, 23, 31, 29, 31, Some(3), Some((28, 29)), None, false, None),
            n(K::Ivar("@user".into()), 23, 28, 23, 28, Some(5)),
        ],
        "process :new, method: :get, params: { user_id: @user.id }\n" => vec![
            n(K::Send { receiver: None, method: "process".into(), args: vec![1, 2] }, 0, 57, 0, 7, None),
            n(K::Sym("new".into()), 8, 12, 8, 12, Some(0)),
            n(K::Hash(vec![3, 6]), 14, 57, 14, 57, Some(0)),
            c(K::Pair { key: 4, value: 5 }, 14, 26, 14, 26, Some(2), None, Some((20, 21)), false, None),
            n(K::Sym("method".into()), 14, 20, 14, 20, Some(3)),
            n(K::Sym("get".into()), 22, 26, 22, 26, Some(3)),
            c(K::Pair { key: 7, value: 8 }, 28, 57, 28, 57, Some(2), None, Some((34, 35)), false, None),
            n(K::Sym("params".into()), 28, 34, 28, 34, Some(6)),
            n(K::Hash(vec![9]), 36, 57, 36, 57, Some(6)),
            c(K::Pair { key: 10, value: 11 }, 38, 55, 38, 55, Some(8), None, Some((45, 46)), false, None),
            n(K::Sym("user_id".into()), 38, 45, 38, 45, Some(9)),
            c(K::Send { receiver: Some(12), method: "id".into(), args: vec![] }, 47, 55, 53, 55, Some(9), Some((52, 53)), None, false, None),
            n(K::Ivar("@user".into()), 47, 52, 47, 52, Some(11)),
        ],
        "@user.get.id = ''\n" => vec![
            c(K::Send { receiver: Some(1), method: "id=".into(), args: vec![3] }, 0, 17, 10, 12, None, Some((9, 10)), Some((13, 14)), false, None),
            c(K::Send { receiver: Some(2), method: "get".into(), args: vec![] }, 0, 9, 6, 9, Some(0), Some((5, 6)), None, false, None),
            n(K::Ivar("@user".into()), 0, 5, 0, 5, Some(1)),
            n(K::Str("".into()), 15, 17, 15, 17, Some(0)),
        ],
        "foo.get :new, { user_id: 1 }\n" => vec![
            c(K::Send { receiver: Some(1), method: "get".into(), args: vec![2, 3] }, 0, 28, 4, 7, None, Some((3, 4)), None, false, None),
            n(K::Send { receiver: None, method: "foo".into(), args: vec![] }, 0, 3, 0, 3, Some(0)),
            n(K::Sym("new".into()), 8, 12, 8, 12, Some(0)),
            n(K::Hash(vec![4]), 14, 28, 14, 28, Some(0)),
            c(K::Pair { key: 5, value: 6 }, 16, 26, 16, 26, Some(3), None, Some((23, 24)), false, None),
            n(K::Sym("user_id".into()), 16, 23, 16, 23, Some(4)),
            n(K::Int(1), 25, 26, 25, 26, Some(4)),
        ],
        "get :new, format: :json\n" => vec![
            n(K::Send { receiver: None, method: "get".into(), args: vec![1, 2] }, 0, 23, 0, 3, None),
            n(K::Sym("new".into()), 4, 8, 4, 8, Some(0)),
            n(K::Hash(vec![3]), 10, 23, 10, 23, Some(0)),
            c(K::Pair { key: 4, value: 5 }, 10, 23, 10, 23, Some(2), None, Some((16, 17)), false, None),
            n(K::Sym("format".into()), 10, 16, 10, 16, Some(3)),
            n(K::Sym("json".into()), 18, 23, 18, 23, Some(3)),
        ],
        r#"[{ format: :json }, { format: :html }].each do |args|
  get :nothing, **args
end
"# => vec![
            n(K::Block { call: 1, args: 11, body: Some(13) }, 0, 80, 0, 80, None),
            c(K::Send { receiver: Some(2), method: "each".into(), args: vec![] }, 0, 43, 39, 43, Some(0), Some((38, 39)), None, false, None),
            n(K::Array(vec![3, 7]), 0, 38, 0, 38, Some(1)),
            n(K::Hash(vec![4]), 1, 18, 1, 18, Some(2)),
            c(K::Pair { key: 5, value: 6 }, 3, 16, 3, 16, Some(3), None, Some((9, 10)), false, None),
            n(K::Sym("format".into()), 3, 9, 3, 9, Some(4)),
            n(K::Sym("json".into()), 11, 16, 11, 16, Some(4)),
            n(K::Hash(vec![8]), 20, 37, 20, 37, Some(2)),
            c(K::Pair { key: 9, value: 10 }, 22, 35, 22, 35, Some(7), None, Some((28, 29)), false, None),
            n(K::Sym("format".into()), 22, 28, 22, 28, Some(8)),
            n(K::Sym("html".into()), 30, 35, 30, 35, Some(8)),
            n(K::Args(vec![12]), 47, 53, 47, 53, Some(0)),
            n(K::Arg("args".into()), 48, 52, 48, 52, Some(11)),
            n(K::Send { receiver: None, method: "get".into(), args: vec![14, 15] }, 56, 76, 56, 59, Some(0)),
            n(K::Sym("nothing".into()), 60, 68, 60, 68, Some(13)),
            n(K::Hash(vec![16]), 70, 76, 70, 76, Some(13)),
            n(K::Kwsplat(17), 70, 76, 70, 76, Some(15)),
            n(K::Lvar("args".into()), 72, 76, 72, 76, Some(16)),
        ],
        "get :new, **nil\n" => vec![
            n(K::Send { receiver: None, method: "get".into(), args: vec![1, 2] }, 0, 15, 0, 3, None),
            n(K::Sym("new".into()), 4, 8, 4, 8, Some(0)),
            n(K::Hash(vec![3]), 10, 15, 10, 15, Some(0)),
            n(K::Kwsplat(4), 10, 15, 10, 15, Some(2)),
            n(K::Nil, 12, 15, 12, 15, Some(3)),
        ],
        r#"def perform_request(...)
  get(:list, ...)
end
"# => vec![
            n(K::Def { name: "perform_request".into(), args: 1, body: Some(3) }, 0, 46, 4, 19, None),
            n(K::Args(vec![2]), 19, 24, 19, 24, Some(0)),
            n(K::ForwardedArgs, 20, 23, 20, 23, Some(1)),
            c(K::Send { receiver: None, method: "get".into(), args: vec![4, 5] }, 27, 42, 27, 30, Some(0), None, None, true, Some(42)),
            n(K::Sym("list".into()), 31, 36, 31, 36, Some(3)),
            n(K::ForwardedArgs, 38, 41, 38, 41, Some(3)),
        ],
        r#"def perform_request(**options)
  get(:list, **options)
end
"# => vec![
            n(K::Def { name: "perform_request".into(), args: 1, body: Some(3) }, 0, 58, 4, 19, None),
            n(K::Args(vec![2]), 19, 30, 19, 30, Some(0)),
            n(K::Other(vec![]), 20, 29, 20, 29, Some(1)),
            c(K::Send { receiver: None, method: "get".into(), args: vec![4, 5] }, 33, 54, 33, 36, Some(0), None, None, true, Some(54)),
            n(K::Sym("list".into()), 37, 42, 37, 42, Some(3)),
            n(K::Hash(vec![6]), 44, 53, 44, 53, Some(3)),
            n(K::Kwsplat(7), 44, 53, 44, 53, Some(5)),
            n(K::Lvar("options".into()), 46, 53, 46, 53, Some(6)),
        ],
        r#"routes do
  get :list, on: :collection
end
"# => vec![
            n(K::Block { call: 1, args: 2, body: Some(3) }, 0, 42, 0, 42, None),
            n(K::Send { receiver: None, method: "routes".into(), args: vec![] }, 0, 6, 0, 6, Some(0)),
            n(K::Args(vec![]), 9, 9, 9, 9, Some(0)),
            n(K::Send { receiver: None, method: "get".into(), args: vec![4, 5] }, 12, 38, 12, 15, Some(0)),
            n(K::Sym("list".into()), 16, 21, 16, 21, Some(3)),
            n(K::Hash(vec![6]), 23, 38, 23, 38, Some(3)),
            c(K::Pair { key: 7, value: 8 }, 23, 38, 23, 38, Some(5), None, Some((25, 26)), false, None),
            n(K::Sym("on".into()), 23, 25, 23, 25, Some(6)),
            n(K::Sym("collection".into()), 27, 38, 27, 38, Some(6)),
        ],
        r#"Rails.application.routes.draw do
  get :list, on: :collection
end
"# => vec![
            n(K::Block { call: 1, args: 5, body: Some(6) }, 0, 65, 0, 65, None),
            c(K::Send { receiver: Some(2), method: "draw".into(), args: vec![] }, 0, 29, 25, 29, Some(0), Some((24, 25)), None, false, None),
            c(K::Send { receiver: Some(3), method: "routes".into(), args: vec![] }, 0, 24, 18, 24, Some(1), Some((17, 18)), None, false, None),
            c(K::Send { receiver: Some(4), method: "application".into(), args: vec![] }, 0, 17, 6, 17, Some(2), Some((5, 6)), None, false, None),
            n(K::Const { scope: None, name: "Rails".into() }, 0, 5, 0, 5, Some(3)),
            n(K::Args(vec![]), 32, 32, 32, 32, Some(0)),
            n(K::Send { receiver: None, method: "get".into(), args: vec![7, 8] }, 35, 61, 35, 38, Some(0)),
            n(K::Sym("list".into()), 39, 44, 39, 44, Some(6)),
            n(K::Hash(vec![9]), 46, 61, 46, 61, Some(6)),
            c(K::Pair { key: 10, value: 11 }, 46, 61, 46, 61, Some(8), None, Some((48, 49)), false, None),
            n(K::Sym("on".into()), 46, 48, 46, 48, Some(9)),
            n(K::Sym("collection".into()), 50, 61, 50, 61, Some(9)),
        ],
        r#"include Rack::Test::Methods

get :create, user_id: @user.id
"# => vec![
            n(K::Begin(vec![1, 5]), 0, 59, 0, 59, None),
            n(K::Send { receiver: None, method: "include".into(), args: vec![2] }, 0, 27, 0, 7, Some(0)),
            n(K::Const { scope: Some(3), name: "Methods".into() }, 8, 27, 20, 27, Some(1)),
            n(K::Const { scope: Some(4), name: "Test".into() }, 8, 18, 14, 18, Some(2)),
            n(K::Const { scope: None, name: "Rack".into() }, 8, 12, 8, 12, Some(3)),
            n(K::Send { receiver: None, method: "get".into(), args: vec![6, 7] }, 29, 59, 29, 32, Some(0)),
            n(K::Sym("create".into()), 33, 40, 33, 40, Some(5)),
            n(K::Hash(vec![8]), 42, 59, 42, 59, Some(5)),
            c(K::Pair { key: 9, value: 10 }, 42, 59, 42, 59, Some(7), None, Some((49, 50)), false, None),
            n(K::Sym("user_id".into()), 42, 49, 42, 49, Some(8)),
            c(K::Send { receiver: Some(11), method: "id".into(), args: vec![] }, 51, 59, 57, 59, Some(8), Some((56, 57)), None, false, None),
            n(K::Ivar("@user".into()), 51, 56, 51, 56, Some(10)),
        ],
        r#"include ::Rack::Test::Methods

get :create, user_id: @user.id
"# => vec![
            n(K::Begin(vec![1, 5]), 0, 61, 0, 61, None),
            n(K::Send { receiver: None, method: "include".into(), args: vec![2] }, 0, 29, 0, 7, Some(0)),
            n(K::Const { scope: Some(3), name: "Methods".into() }, 8, 29, 22, 29, Some(1)),
            n(K::Const { scope: Some(4), name: "Test".into() }, 8, 20, 16, 20, Some(2)),
            n(K::Const { scope: None, name: "Rack".into() }, 8, 14, 10, 14, Some(3)),
            n(K::Send { receiver: None, method: "get".into(), args: vec![6, 7] }, 31, 61, 31, 34, Some(0)),
            n(K::Sym("create".into()), 35, 42, 35, 42, Some(5)),
            n(K::Hash(vec![8]), 44, 61, 44, 61, Some(5)),
            c(K::Pair { key: 9, value: 10 }, 44, 61, 44, 61, Some(7), None, Some((51, 52)), false, None),
            n(K::Sym("user_id".into()), 44, 51, 44, 51, Some(8)),
            c(K::Send { receiver: Some(11), method: "id".into(), args: vec![] }, 53, 61, 59, 61, Some(8), Some((58, 59)), None, false, None),
            n(K::Ivar("@user".into()), 53, 58, 53, 58, Some(10)),
        ],
        "\"get :new, user_id: 1\"\n" => vec![
            n(K::Str("get :new, user_id: 1".into()), 0, 22, 0, 22, None),
        ],
        "# get :new, user_id: 1\n" => vec![

        ],
        "put :create, user_id: @user.id\n" => vec![
            n(K::Send { receiver: None, method: "put".into(), args: vec![1, 2] }, 0, 30, 0, 3, None),
            n(K::Sym("create".into()), 4, 11, 4, 11, Some(0)),
            n(K::Hash(vec![3]), 13, 30, 13, 30, Some(0)),
            c(K::Pair { key: 4, value: 5 }, 13, 30, 13, 30, Some(2), None, Some((20, 21)), false, None),
            n(K::Sym("user_id".into()), 13, 20, 13, 20, Some(3)),
            c(K::Send { receiver: Some(6), method: "id".into(), args: vec![] }, 22, 30, 28, 30, Some(3), Some((27, 28)), None, false, None),
            n(K::Ivar("@user".into()), 22, 27, 22, 27, Some(5)),
        ],
        "patch :create, user_id: @user.id\n" => vec![
            n(K::Send { receiver: None, method: "patch".into(), args: vec![1, 2] }, 0, 32, 0, 5, None),
            n(K::Sym("create".into()), 6, 13, 6, 13, Some(0)),
            n(K::Hash(vec![3]), 15, 32, 15, 32, Some(0)),
            c(K::Pair { key: 4, value: 5 }, 15, 32, 15, 32, Some(2), None, Some((22, 23)), false, None),
            n(K::Sym("user_id".into()), 15, 22, 15, 22, Some(3)),
            c(K::Send { receiver: Some(6), method: "id".into(), args: vec![] }, 24, 32, 30, 32, Some(3), Some((29, 30)), None, false, None),
            n(K::Ivar("@user".into()), 24, 29, 24, 29, Some(5)),
        ],
        "delete :create, user_id: @user.id\n" => vec![
            n(K::Send { receiver: None, method: "delete".into(), args: vec![1, 2] }, 0, 33, 0, 6, None),
            n(K::Sym("create".into()), 7, 14, 7, 14, Some(0)),
            n(K::Hash(vec![3]), 16, 33, 16, 33, Some(0)),
            c(K::Pair { key: 4, value: 5 }, 16, 33, 16, 33, Some(2), None, Some((23, 24)), false, None),
            n(K::Sym("user_id".into()), 16, 23, 16, 23, Some(3)),
            c(K::Send { receiver: Some(6), method: "id".into(), args: vec![] }, 25, 33, 31, 33, Some(3), Some((30, 31)), None, false, None),
            n(K::Ivar("@user".into()), 25, 30, 25, 30, Some(5)),
        ],
        "head :create, user_id: @user.id\n" => vec![
            n(K::Send { receiver: None, method: "head".into(), args: vec![1, 2] }, 0, 31, 0, 4, None),
            n(K::Sym("create".into()), 5, 12, 5, 12, Some(0)),
            n(K::Hash(vec![3]), 14, 31, 14, 31, Some(0)),
            c(K::Pair { key: 4, value: 5 }, 14, 31, 14, 31, Some(2), None, Some((21, 22)), false, None),
            n(K::Sym("user_id".into()), 14, 21, 14, 21, Some(3)),
            c(K::Send { receiver: Some(6), method: "id".into(), args: vec![] }, 23, 31, 29, 31, Some(3), Some((28, 29)), None, false, None),
            n(K::Ivar("@user".into()), 23, 28, 23, 28, Some(5)),
        ],
        "get :new, method: :get\n" => vec![
            n(K::Send { receiver: None, method: "get".into(), args: vec![1, 2] }, 0, 22, 0, 3, None),
            n(K::Sym("new".into()), 4, 8, 4, 8, Some(0)),
            n(K::Hash(vec![3]), 10, 22, 10, 22, Some(0)),
            c(K::Pair { key: 4, value: 5 }, 10, 22, 10, 22, Some(2), None, Some((16, 17)), false, None),
            n(K::Sym("method".into()), 10, 16, 10, 16, Some(3)),
            n(K::Sym("get".into()), 18, 22, 18, 22, Some(3)),
        ],
        "get :new, params: { user_id: @user.id }\n" => vec![
            n(K::Send { receiver: None, method: "get".into(), args: vec![1, 2] }, 0, 39, 0, 3, None),
            n(K::Sym("new".into()), 4, 8, 4, 8, Some(0)),
            n(K::Hash(vec![3]), 10, 39, 10, 39, Some(0)),
            c(K::Pair { key: 4, value: 5 }, 10, 39, 10, 39, Some(2), None, Some((16, 17)), false, None),
            n(K::Sym("params".into()), 10, 16, 10, 16, Some(3)),
            n(K::Hash(vec![6]), 18, 39, 18, 39, Some(3)),
            c(K::Pair { key: 7, value: 8 }, 20, 37, 20, 37, Some(5), None, Some((27, 28)), false, None),
            n(K::Sym("user_id".into()), 20, 27, 20, 27, Some(6)),
            c(K::Send { receiver: Some(9), method: "id".into(), args: vec![] }, 29, 37, 35, 37, Some(6), Some((34, 35)), None, false, None),
            n(K::Ivar("@user".into()), 29, 34, 29, 34, Some(8)),
        ],
        "get :new, xhr: true\n" => vec![
            n(K::Send { receiver: None, method: "get".into(), args: vec![1, 2] }, 0, 19, 0, 3, None),
            n(K::Sym("new".into()), 4, 8, 4, 8, Some(0)),
            n(K::Hash(vec![3]), 10, 19, 10, 19, Some(0)),
            c(K::Pair { key: 4, value: 5 }, 10, 19, 10, 19, Some(2), None, Some((13, 14)), false, None),
            n(K::Sym("xhr".into()), 10, 13, 10, 13, Some(3)),
            n(K::True, 15, 19, 15, 19, Some(3)),
        ],
        "get :new, session: { foo: 'bar' }\n" => vec![
            n(K::Send { receiver: None, method: "get".into(), args: vec![1, 2] }, 0, 33, 0, 3, None),
            n(K::Sym("new".into()), 4, 8, 4, 8, Some(0)),
            n(K::Hash(vec![3]), 10, 33, 10, 33, Some(0)),
            c(K::Pair { key: 4, value: 5 }, 10, 33, 10, 33, Some(2), None, Some((17, 18)), false, None),
            n(K::Sym("session".into()), 10, 17, 10, 17, Some(3)),
            n(K::Hash(vec![6]), 19, 33, 19, 33, Some(3)),
            c(K::Pair { key: 7, value: 8 }, 21, 31, 21, 31, Some(5), None, Some((24, 25)), false, None),
            n(K::Sym("foo".into()), 21, 24, 21, 24, Some(6)),
            n(K::Str("bar".into()), 26, 31, 26, 31, Some(6)),
        ],
        "get :new, headers: {}\n" => vec![
            n(K::Send { receiver: None, method: "get".into(), args: vec![1, 2] }, 0, 21, 0, 3, None),
            n(K::Sym("new".into()), 4, 8, 4, 8, Some(0)),
            n(K::Hash(vec![3]), 10, 21, 10, 21, Some(0)),
            c(K::Pair { key: 4, value: 5 }, 10, 21, 10, 21, Some(2), None, Some((17, 18)), false, None),
            n(K::Sym("headers".into()), 10, 17, 10, 17, Some(3)),
            n(K::Hash(vec![]), 19, 21, 19, 21, Some(3)),
        ],
        "get :new, body: \"foo\"\n" => vec![
            n(K::Send { receiver: None, method: "get".into(), args: vec![1, 2] }, 0, 21, 0, 3, None),
            n(K::Sym("new".into()), 4, 8, 4, 8, Some(0)),
            n(K::Hash(vec![3]), 10, 21, 10, 21, Some(0)),
            c(K::Pair { key: 4, value: 5 }, 10, 21, 10, 21, Some(2), None, Some((14, 15)), false, None),
            n(K::Sym("body".into()), 10, 14, 10, 14, Some(3)),
            n(K::Str("foo".into()), 16, 21, 16, 21, Some(3)),
        ],
        "get :new, flash: {}\n" => vec![
            n(K::Send { receiver: None, method: "get".into(), args: vec![1, 2] }, 0, 19, 0, 3, None),
            n(K::Sym("new".into()), 4, 8, 4, 8, Some(0)),
            n(K::Hash(vec![3]), 10, 19, 10, 19, Some(0)),
            c(K::Pair { key: 4, value: 5 }, 10, 19, 10, 19, Some(2), None, Some((15, 16)), false, None),
            n(K::Sym("flash".into()), 10, 15, 10, 15, Some(3)),
            n(K::Hash(vec![]), 17, 19, 17, 19, Some(3)),
        ],
        "get :new, as: :json\n" => vec![
            n(K::Send { receiver: None, method: "get".into(), args: vec![1, 2] }, 0, 19, 0, 3, None),
            n(K::Sym("new".into()), 4, 8, 4, 8, Some(0)),
            n(K::Hash(vec![3]), 10, 19, 10, 19, Some(0)),
            c(K::Pair { key: 4, value: 5 }, 10, 19, 10, 19, Some(2), None, Some((12, 13)), false, None),
            n(K::Sym("as".into()), 10, 12, 10, 12, Some(3)),
            n(K::Sym("json".into()), 14, 19, 14, 19, Some(3)),
        ],
        "get :new, env: \"test\"\n" => vec![
            n(K::Send { receiver: None, method: "get".into(), args: vec![1, 2] }, 0, 21, 0, 3, None),
            n(K::Sym("new".into()), 4, 8, 4, 8, Some(0)),
            n(K::Hash(vec![3]), 10, 21, 10, 21, Some(0)),
            c(K::Pair { key: 4, value: 5 }, 10, 21, 10, 21, Some(2), None, Some((13, 14)), false, None),
            n(K::Sym("env".into()), 10, 13, 10, 13, Some(3)),
            n(K::Str("test".into()), 15, 21, 15, 21, Some(3)),
        ],
        "get :new, to: 'admin/admin#test'\n" => vec![
            n(K::Send { receiver: None, method: "get".into(), args: vec![1, 2] }, 0, 32, 0, 3, None),
            n(K::Sym("new".into()), 4, 8, 4, 8, Some(0)),
            n(K::Hash(vec![3]), 10, 32, 10, 32, Some(0)),
            c(K::Pair { key: 4, value: 5 }, 10, 32, 10, 32, Some(2), None, Some((12, 13)), false, None),
            n(K::Sym("to".into()), 10, 12, 10, 12, Some(3)),
            n(K::Str("admin/admin#test".into()), 14, 32, 14, 32, Some(3)),
        ],
        _ => panic!("no syntax tree for {:?}", src),
    }
}


#[test]
fn flags_get_with_positional_hash() {
    test().expect_offense(r#"get :create, user_id: @user.id
             ^^^^^^^^^^^^^^^^^ Use keyword arguments instead of positional arguments for http call: `get`.
"#);
}

#[test]
fn corrects_get_with_positional_hash() {
    test().expect_correction(
        r#"get :create, user_id: @user.id
             ^^^^^^^^^^^^^^^^^ Use keyword arguments instead of positional arguments for http call: `get`.
"#,
        "get :create, params: { user_id: @user.id }\n",
    );
}

#[test]
fn flags_each_verb() {
    for verb in ["post", "put", "patch", "delete", "head"] {
        let caret_start = verb.len() + ":create, ".len() + 1;
        let carets = "^".repeat("user_id: @user.id".len());
        let annotated = format!(
            r#"{verb} :create, user_id: @user.id
{}{carets} Use keyword arguments instead of positional arguments for http call: `{verb}`.
"#,
            " ".repeat(caret_start),
        );
        test().expect_offense(&annotated);
    }
}

#[test]
fn corrects_post_with_positional_hash() {
    test().expect_correction(
        r#"post :create, user_id: @user.id
              ^^^^^^^^^^^^^^^^^ Use keyword arguments instead of positional arguments for http call: `post`.
"#,
        "post :create, params: { user_id: @user.id }\n",
    );
}

#[test]
fn flags_method_call_action() {
    test().expect_offense(r#"post user_attrs, id: 1
                 ^^^^^ Use keyword arguments instead of positional arguments for http call: `post`.
"#);
}

#[test]
fn corrects_method_call_action() {
    test().expect_correction(
        r#"post user_attrs, id: 1
                 ^^^^^ Use keyword arguments instead of positional arguments for http call: `post`.
"#,
        "post user_attrs, params: { id: 1 }\n",
    );
}

#[test]
fn maintains_parentheses_when_autocorrecting() {
    test().expect_correction(
        r#"post(:user_attrs, id: 1)
                  ^^^^^ Use keyword arguments instead of positional arguments for http call: `post`.
"#,
        "post(:user_attrs, params: { id: 1 })\n",
    );
}

#[test]
fn maintains_quotes_when_autocorrecting() {
    test().expect_correction(
        r#"get '/auth/linkedin/callback', id: 1
                               ^^^^^ Use keyword arguments instead of positional arguments for http call: `get`.
"#,
        "get '/auth/linkedin/callback', params: { id: 1 }\n",
    );
}

#[test]
fn corrects_non_hash_payload_without_braces() {
    test().expect_correction(
        r#"post :create, confirmation_data
              ^^^^^^^^^^^^^^^^^ Use keyword arguments instead of positional arguments for http call: `post`.
"#,
        "post :create, params: confirmation_data\n",
    );
}

#[test]
fn flags_format_with_other_keys() {
    test().expect_offense(r#"post :create, id: 7, format: :rss
              ^^^^^^^^^^^^^^^^^^^ Use keyword arguments instead of positional arguments for http call: `post`.
"#);
}

#[test]
fn corrects_format_with_other_keys() {
    test().expect_correction(
        r#"post :create, id: 7, format: :rss
              ^^^^^^^^^^^^^^^^^^^ Use keyword arguments instead of positional arguments for http call: `post`.
"#,
        "post :create, params: { id: 7, format: :rss }\n",
    );
}

#[test]
fn corrects_two_hashes_to_params_and_session() {
    test().expect_correction(
        r#"get some_path(profile.id), { user_id: @user.id, profile_id: p.id }, 'HTTP_REFERER' => p_url(p.id).to_s
                           ^^^^^^^^^^^^^^^^^^^^^^^^^^^^^^^^^^^^^^^^^^^^^^^^^^^^^^^^^^^^^^^^^^^^^^^^^^^ Use keyword arguments instead of positional arguments for http call: `get`.
"#,
        "get some_path(profile.id), params: { user_id: @user.id, profile_id: p.id }, session: { 'HTTP_REFERER' => p_url(p.id).to_s }\n",
    );
}

#[test]
fn corrects_empty_hash_to_session_only() {
    test().expect_correction(
        r#"get some_path(profile.id), {}, 'HTTP_REFERER' => p_url(p.id).to_s
                           ^^^^^^^^^^^^^^^^^^^^^^^^^^^^^^^^^^^^^^ Use keyword arguments instead of positional arguments for http call: `get`.
"#,
        "get some_path(profile.id), session: { 'HTTP_REFERER' => p_url(p.id).to_s }\n",
    );
}

#[test]
fn flags_lvar_payload() {
    test().expect_correction(
        r#"params = { id: 1 }
post user_attrs, params
                 ^^^^^^ Use keyword arguments instead of positional arguments for http call: `post`.
"#,
        r#"params = { id: 1 }
post user_attrs, params: params
"#,
    );
}

#[test]
fn does_not_flag_single_arg() {
    test().expect_no_offenses("get :new\n");
}

#[test]
fn does_not_flag_bare_verb() {
    test().expect_no_offenses("get\n");
}

#[test]
fn does_not_flag_non_http_method() {
    test().expect_no_offenses("puts :create, user_id: @user.id\n");
}

#[test]
fn does_not_flag_process() {
    test()
        .expect_no_offenses("process :new, method: :get, params: { user_id: @user.id }\n");
}

#[test]
fn http_positional_arguments_does_not_flag_receiver_call() {
    test().expect_no_offenses("@user.get.id = ''\n");
}

#[test]
fn does_not_flag_explicit_receiver() {
    test()
        .expect_no_offenses("foo.get :new, { user_id: 1 }\n");
}

#[test]
fn does_not_flag_keyword_args() {
    for kwargs in [
        "method: :get",
        "params: { user_id: @user.id }",
        "xhr: true",
        "session: { foo: 'bar' }",
        "format: :json",
        "headers: {}",
        "body: \"foo\"",
        "flash: {}",
        "as: :json",
        "env: \"test\"",
        "to: 'admin/admin#test'",
    ] {
        test()
            .expect_no_offenses(&format!("get :new, {kwargs}\n"));
    }
}

#[test]
fn does_not_flag_format_alone() {
    test().expect_no_offenses("get :new, format: :json\n");
}

#[test]
fn does_not_flag_kwsplat() {
    test().expect_no_offenses(
        r#"[{ format: :json }, { format: :html }].each do |args|
  get :nothing, **args
end
"#,
    );
}

#[test]
fn does_not_flag_anonymous_kwsplat_nil() {
    test().expect_no_offenses("get :new, **nil\n");
}

#[test]
fn does_not_flag_forwarded_args() {
    test().expect_no_offenses(
        r#"def perform_request(...)
  get(:list, ...)
end
"#,
    );
}

#[test]
fn does_not_flag_kwrest_forwarding() {
    test().expect_no_offenses(
        r#"def perform_request(**options)
  get(:list, **options)
end
"#,
    );
}

#[test]
fn does_not_flag_in_routes_block() {
    test().expect_no_offenses(r#"routes do
  get :list, on: :collection
end
"#);
}

#[test]
fn does_not_flag_in_routes_draw_block() {
    test().expect_no_offenses(
        r#"Rails.application.routes.draw do
  get :list, on: :collection
end
"#,
    );
}

#[test]
fn does_not_flag_with_rack_test_methods() {
    test().expect_no_offenses(
        r#"include Rack::Test::Methods

get :create, user_id: @user.id
"#,
    );
}

#[test]
fn does_not_flag_with_cbase_rack_test_methods() {
    test().expect_no_offenses(
        r#"include ::Rack::Test::Methods

get :create, user_id: @user.id
"#,
    );
}

#[test]
fn rails_42_does_not_flag() {
    test()
        .with_target_rails_version(4, 2)
        .expect_no_offenses("get :create, user_id: @user.id\n");
}

#[test]
fn rails_50_flags() {
    test()
        .with_target_rails_version(5, 0)
        .expect_offense(r#"get :create, user_id: @user.id
             ^^^^^^^^^^^^^^^^^ Use keyword arguments instead of positional arguments for http call: `get`.
"#);
}

#[test]
fn does_not_flag_string_literal() {
    test()
        .expect_no_offenses("\"get :new, user_id: 1\"\n");
}

#[test]
fn does_not_flag_comment() {
    test()
        .expect_no_offenses("# get :new, user_id: 1\n");
}
