#![allow(dead_code, unused_imports)]

use murphy_rails::ast::{IfKeyword, Node, NodeKind as K, Range, SourceFile};
use murphy_rails::report::{Edit, Offense};
use murphy_rails::cops::request_referer::{RequestReferer, RequestRefererOptions, RequestRefererStyle};

type Options = RequestRefererOptions;

/// Runs the rule on every node of the file, in document order.
fn run(f: &SourceFile, o: &Options) -> Vec<Offense> {
    let _ = o;
    let mut out = Vec::new();
    for i in 0..f.nodes.len() {
        match &f.nodes[i].kind {
            K::Send { .. } => out.extend(RequestReferer.check_send(f, i, o)),
            _ => {}
        }
    }
    out
}

/// A node without call details.
fn n(kind: K, start: usize, end: usize, name_start: usize, name_end: usize, parent: Option<usize>) -> Node {
    c(kind, start, end, name_start, name_end, parent, None, None, false, None)
}

/// A node with its call details.
fn c(
    kind: K,
    start: usize,
    end: usize,
    name_start: usize,
    name_end: usize,
    parent: Option<usize>,
    dot: Option<(usize, usize)>,
    op: Option<(usize, usize)>,
    parenthesized: bool,
    paren_end: Option<usize>,
) -> Node {
    Node {
        kind,
        range: Range { start, end },
        name_range: Range { start: name_start, end: name_end },
        dot_range: dot.map(|(s, e)| Range { start: s, end: e }),
        operator_range: op.map(|(s, e)| Range { start: s, end: e }),
        parent,
        parenthesized,
        paren_end,
    }
}

/// How the rule is run: target Rails version, file path and options.
struct Case<'a> {
    major: u32,
    minor: u32,
    path: &'a str,
    options: Option<&'a Options>,
}

fn test<'a>() -> Case<'a> {
    Case { major: 8, minor: 0, path: "test.rb", options: None }
}

fn run_cop(src: &str) -> Vec<Offense> {
    test().offenses(src)
}

/// The offenses of a run, and all their edits.
struct Run {
    offenses: Vec<Offense>,
    edits: Vec<Edit>,
}

fn run_cop_with_edits(src: &str) -> Run {
    let offenses = test().offenses(src);
    let mut edits = Vec::new();
    for o in &offenses {
        for e in &o.edits {
            edits.push(Edit { range: e.range, replacement: e.replacement.clone() });
        }
    }
    Run { offenses, edits }
}

/// The source without its `^^^ message` lines, and the marks: line,
/// column, width and message.
fn split_marks(text: &str) -> (String, Vec<(usize, usize, usize, String)>) {
    let mut src = String::new();
    let mut marks = Vec::new();
    let mut line = 0usize;
    for l in text.split_inclusive('\n') {
        let t = l.trim_start_matches(' ');
        if t.starts_with('^') {
            let body = t.trim_end_matches('\n');
            let width = body.chars().take_while(|&ch| ch == '^').count();
            let rest = &body[width..];
            let msg = rest.strip_prefix(' ').unwrap_or(rest);
            marks.push((line - 1, l.len() - t.len(), width, msg.to_string()));
        } else {
            src.push_str(l);
            line += 1;
        }
    }
    (src, marks)
}

/// The marks of offenses: a span over several lines is marked to the end
/// of its first line.
fn marks_of(src: &str, offenses: &[Offense]) -> Vec<(usize, usize, usize, String)> {
    let chars: Vec<char> = src.chars().collect();
    let mut out = Vec::new();
    for o in offenses {
        let (s, e) = (o.range.start, o.range.end);
        let line = chars[..s].iter().filter(|&&ch| ch == '\n').count();
        let line_start = chars[..s].iter().rposition(|&ch| ch == '\n').map_or(0, |p| p + 1);
        let line_end = chars[s..].iter().position(|&ch| ch == '\n').map_or(chars.len(), |p| s + p);
        let col = s - line_start;
        let width = if e <= line_end { e - s } else { line_end - s };
        out.push((line, col, width, o.message.clone()));
    }
    out.sort();
    out
}

/// The source with every offense's edits applied, in order of position;
/// an edit overlapping one already applied is left out.
fn corrected(src: &str, offenses: &[Offense]) -> String {
    let chars: Vec<char> = src.chars().collect();
    let mut edits: Vec<(usize, usize, usize, String)> = Vec::new();
    for o in offenses {
        for e in &o.edits {
            edits.push((e.range.start, e.range.end, edits.len(), e.replacement.clone()));
        }
    }
    edits.sort();
    let mut out = String::new();
    let mut pos = 0usize;
    for (s, e, _, r) in edits {
        if s < pos {
            continue;
        }
        out.extend(chars[pos..s].iter());
        out.push_str(&r);
        pos = e;
    }
    out.extend(chars[pos..].iter());
    out
}

impl<'a> Case<'a> {
    fn with_target_rails_version(mut self, major: u32, minor: u32) -> Self {
        self.major = major;
        self.minor = minor;
        self
    }

    fn with_file_path(mut self, path: &'a str) -> Self {
        self.path = path;
        self
    }

    fn with_options(mut self, options: &'a Options) -> Self {
        self.options = Some(options);
        self
    }

    fn offenses(&self, src: &str) -> Vec<Offense> {
        let file = SourceFile {
            source: src.to_string(),
            file_path: self.path.to_string(),
            nodes: tree(src),
            rails_major: self.major,
            rails_minor: self.minor,
        };
        let default = Options::default();
        run(&file, self.options.unwrap_or(&default))
    }

    fn expect_offense<S: AsRef<str>>(self, annotated: S) -> Self {
        let annotated = annotated.as_ref();
        let (src, marks) = split_marks(annotated);
        let mut expected = marks;
        expected.sort();
        assert_eq!(marks_of(&src, &self.offenses(&src)), expected);
        self
    }

    fn expect_no_offenses<S: AsRef<str>>(self, src: S) -> Self {
        let src = src.as_ref();
        let found = self.offenses(src);
        assert!(found.is_empty(), "unexpected offenses: {:?}", marks_of(src, &found));
        self
    }

    fn expect_correction<S: AsRef<str>>(self, annotated: S, expected: &str) -> Self {
        let annotated = annotated.as_ref();
        let (src, marks) = split_marks(annotated);
        let found = self.offenses(&src);
        let mut want = marks;
        want.sort();
        assert_eq!(marks_of(&src, &found), want);
        assert_eq!(corrected(&src, &found), expected);
        self
    }
}

/// The syntax tree of each source used below.
fn tree(src: &str) -> Vec<Node> {
    match src {
        "request.referrer\n" => vec![
            c(K::Send { receiver: Some(1), method: "referrer".into(), args: vec![] }, 0, 16, 8, 16, None, Some((7, 8)), None, false, None),
            n(K::Send { receiver: None, method: "request".into(), args: vec![] }, 0, 7, 0, 7, Some(0)),
        ],
        "request.referer\n" => vec![
            c(K::Send { receiver: Some(1), method: "referer".into(), args: vec![] }, 0, 15, 8, 15, None, Some((7, 8)), None, false, None),
            n(K::Send { receiver: None, method: "request".into(), args: vec![] }, 0, 7, 0, 7, Some(0)),
        ],
        "request . referrer\n" => vec![
            c(K::Send { receiver: Some(1), method: "referrer".into(), args: vec![] }, 0, 18, 10, 18, None, Some((8, 9)), None, false, None),
            n(K::Send { receiver: None, method: "request".into(), args: vec![] }, 0, 7, 0, 7, Some(0)),
        ],
        r#"if request.referrer.present?
  redirect_to request.referrer
end
"# => vec![
            n(K::If { cond: 1, then_branch: Some(4), else_branch: None, keyword: IfKeyword::If, modifier: false, has_else: false }, 0, 63, 0, 2, None),
            c(K::Send { receiver: Some(2), method: "present?".into(), args: vec![] }, 3, 28, 20, 28, Some(0), Some((19, 20)), None, false, None),
            c(K::Send { receiver: Some(3), method: "referrer".into(), args: vec![] }, 3, 19, 11, 19, Some(1), Some((10, 11)), None, false, None),
            n(K::Send { receiver: None, method: "request".into(), args: vec![] }, 3, 10, 3, 10, Some(2)),
            n(K::Send { receiver: None, method: "redirect_to".into(), args: vec![5] }, 31, 59, 31, 42, Some(0)),
            c(K::Send { receiver: Some(6), method: "referrer".into(), args: vec![] }, 43, 59, 51, 59, Some(4), Some((50, 51)), None, false, None),
            n(K::Send { receiver: None, method: "request".into(), args: vec![] }, 43, 50, 43, 50, Some(5)),
        ],
        "request.referrer.present?\n" => vec![
            c(K::Send { receiver: Some(1), method: "present?".into(), args: vec![] }, 0, 25, 17, 25, None, Some((16, 17)), None, false, None),
            c(K::Send { receiver: Some(2), method: "referrer".into(), args: vec![] }, 0, 16, 8, 16, Some(0), Some((7, 8)), None, false, None),
            n(K::Send { receiver: None, method: "request".into(), args: vec![] }, 0, 7, 0, 7, Some(1)),
        ],
        "other.referer\n" => vec![
            c(K::Send { receiver: Some(1), method: "referer".into(), args: vec![] }, 0, 13, 6, 13, None, Some((5, 6)), None, false, None),
            n(K::Send { receiver: None, method: "other".into(), args: vec![] }, 0, 5, 0, 5, Some(0)),
        ],
        "referer\n" => vec![
            n(K::Send { receiver: None, method: "referer".into(), args: vec![] }, 0, 7, 0, 7, None),
        ],
        "Request.referer\n" => vec![
            c(K::Send { receiver: Some(1), method: "referer".into(), args: vec![] }, 0, 15, 8, 15, None, Some((7, 8)), None, false, None),
            n(K::Const { scope: None, name: "Request".into() }, 0, 7, 0, 7, Some(0)),
        ],
        "@request.referer\n" => vec![
            c(K::Send { receiver: Some(1), method: "referer".into(), args: vec![] }, 0, 16, 9, 16, None, Some((8, 9)), None, false, None),
            n(K::Ivar("@request".into()), 0, 8, 0, 8, Some(0)),
        ],
        "request.path\n" => vec![
            c(K::Send { receiver: Some(1), method: "path".into(), args: vec![] }, 0, 12, 8, 12, None, Some((7, 8)), None, false, None),
            n(K::Send { receiver: None, method: "request".into(), args: vec![] }, 0, 7, 0, 7, Some(0)),
        ],
        "request(foo).referer\n" => vec![
            c(K::Send { receiver: Some(1), method: "referer".into(), args: vec![] }, 0, 20, 13, 20, None, Some((12, 13)), None, false, None),
            c(K::Send { receiver: None, method: "request".into(), args: vec![2] }, 0, 12, 0, 7, Some(0), None, None, true, Some(12)),
            n(K::Send { receiver: None, method: "foo".into(), args: vec![] }, 8, 11, 8, 11, Some(1)),
        ],
        "request(:get) { |r| r.referer }\n" => vec![
            n(K::Block { call: 1, args: 3, body: Some(5) }, 0, 31, 0, 31, None),
            c(K::Send { receiver: None, method: "request".into(), args: vec![2] }, 0, 13, 0, 7, Some(0), None, None, true, Some(13)),
            n(K::Sym("get".into()), 8, 12, 8, 12, Some(1)),
            n(K::Args(vec![4]), 16, 19, 16, 19, Some(0)),
            n(K::Arg("r".into()), 17, 18, 17, 18, Some(3)),
            c(K::Send { receiver: Some(6), method: "referer".into(), args: vec![] }, 20, 29, 22, 29, Some(0), Some((21, 22)), None, false, None),
            n(K::Lvar("r".into()), 20, 21, 20, 21, Some(5)),
        ],
        _ => panic!("no syntax tree for {:?}", src),
    }
}

fn referrer_style() -> RequestRefererOptions {
    RequestRefererOptions {
        enforced_style: RequestRefererStyle::Referrer,
    }
}

#[test]
fn flags_request_referrer_by_default() {
    test().expect_offense(r#"request.referrer
^^^^^^^^^^^^^^^^ Use `request.referer` instead of `request.referrer`.
"#);
}

#[test]
fn corrects_request_referrer_by_default() {
    test()
        .expect_correction(
            r#"request.referrer
^^^^^^^^^^^^^^^^ Use `request.referer` instead of `request.referrer`.
"#,
            "request.referer\n",
        )
        .expect_no_offenses("request.referer\n");
}

#[test]
fn corrects_whitespace_around_dot_like_rubocop() {
    test().expect_correction(
        r#"request . referrer
^^^^^^^^^^^^^^^^^^ Use `request.referer` instead of `request.referrer`.
"#,
        "request.referer\n",
    );
}

#[test]
fn flags_request_referrer_in_conditional_by_default() {
    test().expect_offense(r#"if request.referrer.present?
   ^^^^^^^^^^^^^^^^ Use `request.referer` instead of `request.referrer`.
  redirect_to request.referrer
              ^^^^^^^^^^^^^^^^ Use `request.referer` instead of `request.referrer`.
end
"#);
}

#[test]
fn flags_request_referrer_chained_by_default() {
    test().expect_offense(r#"request.referrer.present?
^^^^^^^^^^^^^^^^ Use `request.referer` instead of `request.referrer`.
"#);
}

#[test]
fn referrer_style_flags_request_referer() {
    test()
        .with_options(&referrer_style())
        .expect_offense(r#"request.referer
^^^^^^^^^^^^^^^ Use `request.referrer` instead of `request.referer`.
"#);
}

#[test]
fn referrer_style_corrects_request_referer() {
    test()
        .with_options(&referrer_style())
        .expect_correction(
            r#"request.referer
^^^^^^^^^^^^^^^ Use `request.referrer` instead of `request.referer`.
"#,
            "request.referrer\n",
        )
        .expect_no_offenses("request.referrer\n");
}

#[test]
fn referrer_style_does_not_flag_request_referrer() {
    test()
        .with_options(&referrer_style())
        .expect_no_offenses("request.referrer\n");
}

#[test]
fn does_not_flag_request_referer_by_default() {
    test().expect_no_offenses("request.referer\n");
}

#[test]
fn does_not_flag_other_receiver_referer() {
    test().expect_no_offenses("other.referer\n");
}

#[test]
fn does_not_flag_bare_referer() {
    test().expect_no_offenses("referer\n");
}

#[test]
fn does_not_flag_const_request_receiver() {
    test().expect_no_offenses("Request.referer\n");
}

#[test]
fn does_not_flag_ivar_request_receiver() {
    test().expect_no_offenses("@request.referer\n");
}

#[test]
fn does_not_flag_unrelated_method_on_request() {
    test().expect_no_offenses("request.path\n");
}

#[test]
fn does_not_flag_request_with_args() {
    test().expect_no_offenses("request(foo).referer\n");
}

#[test]
fn does_not_flag_request_with_block() {
    test().expect_no_offenses("request(:get) { |r| r.referer }\n");
}
