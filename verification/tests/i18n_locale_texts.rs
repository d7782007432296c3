#![allow(dead_code, unused_imports)]

use murphy_rails::ast::{IfKeyword, Node, NodeKind as K, Range, SourceFile};
use murphy_rails::report::{Edit, Offense};
use murphy_rails::cops::i18n_locale_texts::I18nLocaleTexts;

type Options = ();

/// Runs the rule on every node of the file, in document order.
fn run(f: &SourceFile, o: &Options) -> Vec<Offense> {
    let _ = o;
    let mut out = Vec::new();
    for i in 0..f.nodes.len() {
        match &f.nodes[i].kind {
            K::Send { .. } => out.extend(I18nLocaleTexts.check_send(f, i)),
            _ => {}
        }
    }
    out
}

/// A node without call details.
fn n(kind: K, start: usize, end: usize, name_start: usize, name_end: usize, parent: Option<usize>) -> Node {
    c(kind, start, end, name_start, name_end, parent, None, None, false, None)
}

/// A node with its call details.
fn c(
    kind: K,
    start: usize,
    end: usize,
    name_start: usize,
    name_end: usize,
    parent: Option<usize>,
    dot: Option<(usize, usize)>,
    op: Option<(usize, usize)>,
    parenthesized: bool,
    paren_end: Option<usize>,
) -> Node {
    Node {
        kind,
        range: Range { start, end },
        name_range: Range { start: name_start, end: name_end },
        dot_range: dot.map(|(s, e)| Range { start: s, end: e }),
        operator_range: op.map(|(s, e)| Range { start: s, end: e }),
        parent,
        parenthesized,
        paren_end,
    }
}

/// How the rule is run: target Rails version, file path and options.
struct Case<'a> {
    major: u32,
    minor: u32,
    path: &'a str,
    options: Option<&'a Options>,
}

fn test<'a>() -> Case<'a> {
    Case { major: 8, minor: 0, path: "test.rb", options: None }
}

fn run_cop(src: &str) -> Vec<Offense> {
    test().offenses(src)
}

/// The offenses of a run, and all their edits.
struct Run {
    offenses: Vec<Offense>,
    edits: Vec<Edit>,
}

fn run_cop_with_edits(src: &str) -> Run {
    let offenses = test().offenses(src);
    let mut edits = Vec::new();
    for o in &offenses {
        for e in &o.edits {
            edits.push(Edit { range: e.range, replacement: e.replacement.clone() });
        }
    }
    Run { offenses, edits }
}

/// The source without its `^^^ message` lines, and the marks: line,
/// column, width and message.
fn split_marks(text: &str) -> (String, Vec<(usize, usize, usize, String)>) {
    let mut src = String::new();
    let mut marks = Vec::new();
    let mut line = 0usize;
    for l in text.split_inclusive('\n') {
        let t = l.trim_start_matches(' ');
        if t.starts_with('^') {
            let body = t.trim_end_matches('\n');
            let width = body.chars().take_while(|&ch| ch == '^').count();
            let rest = &body[width..];
            let msg = rest.strip_prefix(' ').unwrap_or(rest);
            marks.push((line - 1, l.len() - t.len(), width, msg.to_string()));
        } else {
            src.push_str(l);
            line += 1;
        }
    }
    (src, marks)
}

/// The marks of offenses: a span over several lines is marked to the end
/// of its first line.
fn marks_of(src: &str, offenses: &[Offense]) -> Vec<(usize, usize, usize, String)> {
    let chars: Vec<char> = src.chars().collect();
    let mut out = Vec::new();
    for o in offenses {
        let (s, e) = (o.range.start, o.range.end);
        let line = chars[..s].iter().filter(|&&ch| ch == '\n').count();
        let line_start = chars[..s].iter().rposition(|&ch| ch == '\n').map_or(0, |p| p + 1);
        let line_end = chars[s..].iter().position(|&ch| ch == '\n').map_or(chars.len(), |p| s + p);
        let col = s - line_start;
        let width = if e <= line_end { e - s } else { line_end - s };
        out.push((line, col, width, o.message.clone()));
    }
    out.sort();
    out
}

/// The source with every offense's edits applied, in order of position;
/// an edit overlapping one already applied is left out.
fn corrected(src: &str, offenses: &[Offense]) -> String {
    let chars: Vec<char> = src.chars().collect();
    let mut edits: Vec<(usize, usize, usize, String)> = Vec::new();
    for o in offenses {
        for e in &o.edits {
            edits.push((e.range.start, e.range.end, edits.len(), e.replacement.clone()));
        }
    }
    edits.sort();
    let mut out = String::new();
    let mut pos = 0usize;
    for (s, e, _, r) in edits {
        if s < pos {
            continue;
        }
        out.extend(chars[pos..s].iter());
        out.push_str(&r);
        pos = e;
    }
    out.extend(chars[pos..].iter());
    out
}

impl<'a> Case<'a> {
    fn with_target_rails_version(mut self, major: u32, minor: u32) -> Self {
        self.major = major;
        self.minor = minor;
        self
    }

    fn with_file_path(mut self, path: &'a str) -> Self {
        self.path = path;
        self
    }

    fn with_options(mut self, options: &'a Options) -> Self {
        self.options = Some(options);
        self
    }

    fn offenses(&self, src: &str) -> Vec<Offense> {
        let file = SourceFile {
            source: src.to_string(),
            file_path: self.path.to_string(),
            nodes: tree(src),
            rails_major: self.major,
            rails_minor: self.minor,
        };
        let default = Options::default();
        run(&file, self.options.unwrap_or(&default))
    }

    fn expect_offense<S: AsRef<str>>(self, annotated: S) -> Self {
        let annotated = annotated.as_ref();
        let (src, marks) = split_marks(annotated);
        let mut expected = marks;
        expected.sort();
        assert_eq!(marks_of(&src, &self.offenses(&src)), expected);
        self
    }

    fn expect_no_offenses<S: AsRef<str>>(self, src: S) -> Self {
        let src = src.as_ref();
        let found = self.offenses(src);
        assert!(found.is_empty(), "unexpected offenses: {:?}", marks_of(src, &found));
        self
    }

    fn expect_correction<S: AsRef<str>>(self, annotated: S, expected: &str) -> Self {
        let annotated = annotated.as_ref();
        let (src, marks) = split_marks(annotated);
        let found = self.offenses(&src);
        let mut want = marks;
        want.sort();
        assert_eq!(marks_of(&src, &found), want);
        assert_eq!(corrected(&src, &found), expected);
        self
    }
}

/// The syntax tree of each source used below.
fn tree(src: &str) -> Vec<Node> {
    match src {
        r#"validates :email, presence: { message: "must be present" },
  format: { with: /@/, message: "not an email" },
  length: { maximum: 64 }
"# => vec![
            n(K::Send { receiver: None, method: "validates".into(), args: vec![1, 2] }, 0, 135, 0, 9, None),
            n(K::Sym("email".into()), 10, 16, 10, 16, Some(0)),
            n(K::Hash(vec![3, 9, 19]), 18, 135, 18, 135, Some(0)),
            c(K::Pair { key: 4, value: 5 }, 18, 58, 18, 58, Some(2), None, Some((26, 27)), false, None),
            n(K::Sym("presence".into()), 18, 26, 18, 26, Some(3)),
            n(K::Hash(vec![6]), 28, 58, 28, 58, Some(3)),
            c(K::Pair { key: 7, value: 8 }, 30, 56, 30, 56, Some(5), None, Some((37, 38)), false, None),
            n(K::Sym("message".into()), 30, 37, 30, 37, Some(6)),
            n(K::Str("must be present".into()), 39, 56, 39, 56, Some(6)),
            c(K::Pair { key: 10, value: 11 }, 62, 108, 62, 108, Some(2), None, Some((68, 69)), false, None),
            n(K::Sym("format".into()), 62, 68, 62, 68, Some(9)),
            n(K::Hash(vec![12, 16]), 70, 108, 70, 108, Some(9)),
            c(K::Pair { key: 13, value: 14 }, 72, 81, 72, 81, Some(11), None, Some((76, 77)), false, None),
            n(K::Sym("with".into()), 72, 76, 72, 76, Some(12)),
            n(K::Regexp(vec![15]), 78, 81, 78, 81, Some(12)),
            n(K::Str("@".into()), 79, 80, 79, 80, Some(14)),
            c(K::Pair { key: 17, value: 18 }, 83, 106, 83, 106, Some(11), None, Some((90, 91)), false, None),
            n(K::Sym("message".into()), 83, 90, 83, 90, Some(16)),
            n(K::Str("not an email".into()), 92, 106, 92, 106, Some(16)),
            c(K::Pair { key: 20, value: 21 }, 112, 135, 112, 135, Some(2), None, Some((118, 119)), false, None),
            n(K::Sym("length".into()), 112, 118, 112, 118, Some(19)),
            n(K::Hash(vec![22]), 120, 135, 120, 135, Some(19)),
            c(K::Pair { key: 23, value: 24 }, 122, 133, 122, 133, Some(21), None, Some((129, 130)), false, None),
            n(K::Sym("maximum".into()), 122, 129, 122, 129, Some(22)),
            n(K::Int(64), 131, 133, 131, 133, Some(22)),
        ],
        r#"validates :email, presence: { message: :email_missing },
  format: { with: /@/, message: I18n.t('email_format') },
  length: { maximum: 64 }
"# => vec![
            n(K::Send { receiver: None, method: "validates".into(), args: vec![1, 2] }, 0, 140, 0, 9, None),
            n(K::Sym("email".into()), 10, 16, 10, 16, Some(0)),
            n(K::Hash(vec![3, 9, 21]), 18, 140, 18, 140, Some(0)),
            c(K::Pair { key: 4, value: 5 }, 18, 55, 18, 55, Some(2), None, Some((26, 27)), false, None),
            n(K::Sym("presence".into()), 18, 26, 18, 26, Some(3)),
            n(K::Hash(vec![6]), 28, 55, 28, 55, Some(3)),
            c(K::Pair { key: 7, value: 8 }, 30, 53, 30, 53, Some(5), None, Some((37, 38)), false, None),
            n(K::Sym("message".into()), 30, 37, 30, 37, Some(6)),
            n(K::Sym("email_missing".into()), 39, 53, 39, 53, Some(6)),
            c(K::Pair { key: 10, value: 11 }, 59, 113, 59, 113, Some(2), None, Some((65, 66)), false, None),
            n(K::Sym("format".into()), 59, 65, 59, 65, Some(9)),
            n(K::Hash(vec![12, 16]), 67, 113, 67, 113, Some(9)),
            c(K::Pair { key: 13, value: 14 }, 69, 78, 69, 78, Some(11), None, Some((73, 74)), false, None),
            n(K::Sym("with".into()), 69, 73, 69, 73, Some(12)),
            n(K::Regexp(vec![15]), 75, 78, 75, 78, Some(12)),
            n(K::Str("@".into()), 76, 77, 76, 77, Some(14)),
            c(K::Pair { key: 17, value: 18 }, 80, 111, 80, 111, Some(11), None, Some((87, 88)), false, None),
            n(K::Sym("message".into()), 80, 87, 80, 87, Some(16)),
            c(K::Send { receiver: Some(19), method: "t".into(), args: vec![20] }, 89, 111, 94, 95, Some(16), Some((93, 94)), None, true, Some(111)),
            n(K::Const { scope: None, name: "I18n".into() }, 89, 93, 89, 93, Some(18)),
            n(K::Str("email_format".into()), 96, 110, 96, 110, Some(18)),
            c(K::Pair { key: 22, value: 23 }, 117, 140, 117, 140, Some(2), None, Some((123, 124)), false, None),
            n(K::Sym("length".into()), 117, 123, 117, 123, Some(21)),
            n(K::Hash(vec![24]), 125, 140, 125, 140, Some(21)),
            c(K::Pair { key: 25, value: 26 }, 127, 138, 127, 138, Some(23), None, Some((134, 135)), false, None),
            n(K::Sym("maximum".into()), 127, 134, 127, 134, Some(24)),
            n(K::Int(64), 136, 138, 136, 138, Some(24)),
        ],
        "redirect_to root_path, notice: \"Post created!\"\n" => vec![
            n(K::Send { receiver: None, method: "redirect_to".into(), args: vec![1, 2] }, 0, 46, 0, 11, None),
            n(K::Send { receiver: None, method: "root_path".into(), args: vec![] }, 12, 21, 12, 21, Some(0)),
            n(K::Hash(vec![3]), 23, 46, 23, 46, Some(0)),
            c(K::Pair { key: 4, value: 5 }, 23, 46, 23, 46, Some(2), None, Some((29, 30)), false, None),
            n(K::Sym("notice".into()), 23, 29, 23, 29, Some(3)),
            n(K::Str("Post created!".into()), 31, 46, 31, 46, Some(3)),
        ],
        "redirect_back fallback_location: root_path, notice: \"Post created!\"\n" => vec![
            n(K::Send { receiver: None, method: "redirect_back".into(), args: vec![1] }, 0, 67, 0, 13, None),
            n(K::Hash(vec![2, 5]), 14, 67, 14, 67, Some(0)),
            c(K::Pair { key: 3, value: 4 }, 14, 42, 14, 42, Some(1), None, Some((31, 32)), false, None),
            n(K::Sym("fallback_location".into()), 14, 31, 14, 31, Some(2)),
            n(K::Send { receiver: None, method: "root_path".into(), args: vec![] }, 33, 42, 33, 42, Some(2)),
            c(K::Pair { key: 6, value: 7 }, 44, 67, 44, 67, Some(1), None, Some((50, 51)), false, None),
            n(K::Sym("notice".into()), 44, 50, 44, 50, Some(5)),
            n(K::Str("Post created!".into()), 52, 67, 52, 67, Some(5)),
        ],
        "redirect_back_or_to root_path, notice: \"Post created!\"\n" => vec![
            n(K::Send { receiver: None, method: "redirect_back_or_to".into(), args: vec![1, 2] }, 0, 54, 0, 19, None),
            n(K::Send { receiver: None, method: "root_path".into(), args: vec![] }, 20, 29, 20, 29, Some(0)),
            n(K::Hash(vec![3]), 31, 54, 31, 54, Some(0)),
            c(K::Pair { key: 4, value: 5 }, 31, 54, 31, 54, Some(2), None, Some((37, 38)), false, None),
            n(K::Sym("notice".into()), 31, 37, 31, 37, Some(3)),
            n(K::Str("Post created!".into()), 39, 54, 39, 54, Some(3)),
        ],
        "redirect_back_or_to root_path, alert: \"Failed to update!\"\n" => vec![
            n(K::Send { receiver: None, method: "redirect_back_or_to".into(), args: vec![1, 2] }, 0, 57, 0, 19, None),
            n(K::Send { receiver: None, method: "root_path".into(), args: vec![] }, 20, 29, 20, 29, Some(0)),
            n(K::Hash(vec![3]), 31, 57, 31, 57, Some(0)),
            c(K::Pair { key: 4, value: 5 }, 31, 57, 31, 57, Some(2), None, Some((36, 37)), false, None),
            n(K::Sym("alert".into()), 31, 36, 31, 36, Some(3)),
            n(K::Str("Failed to update!".into()), 38, 57, 38, 57, Some(3)),
        ],
        "redirect_back_or_to root_path, notice: t(\".success\")\n" => vec![
            n(K::Send { receiver: None, method: "redirect_back_or_to".into(), args: vec![1, 2] }, 0, 52, 0, 19, None),
            n(K::Send { receiver: None, method: "root_path".into(), args: vec![] }, 20, 29, 20, 29, Some(0)),
            n(K::Hash(vec![3]), 31, 52, 31, 52, Some(0)),
            c(K::Pair { key: 4, value: 5 }, 31, 52, 31, 52, Some(2), None, Some((37, 38)), false, None),
            n(K::Sym("notice".into()), 31, 37, 31, 37, Some(3)),
            c(K::Send { receiver: None, method: "t".into(), args: vec![6] }, 39, 52, 39, 40, Some(3), None, None, true, Some(52)),
            n(K::Str(".success".into()), 41, 51, 41, 51, Some(5)),
        ],
        "redirect_to root_path, notice: t(\".success\")\n" => vec![
            n(K::Send { receiver: None, method: "redirect_to".into(), args: vec![1, 2] }, 0, 44, 0, 11, None),
            n(K::Send { receiver: None, method: "root_path".into(), args: vec![] }, 12, 21, 12, 21, Some(0)),
            n(K::Hash(vec![3]), 23, 44, 23, 44, Some(0)),
            c(K::Pair { key: 4, value: 5 }, 23, 44, 23, 44, Some(2), None, Some((29, 30)), false, None),
            n(K::Sym("notice".into()), 23, 29, 23, 29, Some(3)),
            c(K::Send { receiver: None, method: "t".into(), args: vec![6] }, 31, 44, 31, 32, Some(3), None, None, true, Some(44)),
            n(K::Str(".success".into()), 33, 43, 33, 43, Some(5)),
        ],
        "flash[:notice] = \"Post created!\"\n" => vec![
            c(K::Send { receiver: Some(1), method: "[]=".into(), args: vec![2, 3] }, 0, 32, 5, 14, None, None, Some((15, 16)), false, None),
            n(K::Send { receiver: None, method: "flash".into(), args: vec![] }, 0, 5, 0, 5, Some(0)),
            n(K::Sym("notice".into()), 6, 13, 6, 13, Some(0)),
            n(K::Str("Post created!".into()), 17, 32, 17, 32, Some(0)),
        ],
        "flash.now[:notice] = \"Post created!\"\n" => vec![
            c(K::Send { receiver: Some(1), method: "[]=".into(), args: vec![3, 4] }, 0, 36, 9, 18, None, None, Some((19, 20)), false, None),
            c(K::Send { receiver: Some(2), method: "now".into(), args: vec![] }, 0, 9, 6, 9, Some(0), Some((5, 6)), None, false, None),
            n(K::Send { receiver: None, method: "flash".into(), args: vec![] }, 0, 5, 0, 5, Some(1)),
            n(K::Sym("notice".into()), 10, 17, 10, 17, Some(0)),
            n(K::Str("Post created!".into()), 21, 36, 21, 36, Some(0)),
        ],
        "flash[:notice] = t(\".success\")\n" => vec![
            c(K::Send { receiver: Some(1), method: "[]=".into(), args: vec![2, 3] }, 0, 30, 5, 14, None, None, Some((15, 16)), false, None),
            n(K::Send { receiver: None, method: "flash".into(), args: vec![] }, 0, 5, 0, 5, Some(0)),
            n(K::Sym("notice".into()), 6, 13, 6, 13, Some(0)),
            c(K::Send { receiver: None, method: "t".into(), args: vec![4] }, 17, 30, 17, 18, Some(0), None, None, true, Some(30)),
            n(K::Str(".success".into()), 19, 29, 19, 29, Some(3)),
        ],
        "flash.now[:notice] = t(\".success\")\n" => vec![
            c(K::Send { receiver: Some(1), method: "[]=".into(), args: vec![3, 4] }, 0, 34, 9, 18, None, None, Some((19, 20)), false, None),
            c(K::Send { receiver: Some(2), method: "now".into(), args: vec![] }, 0, 9, 6, 9, Some(0), Some((5, 6)), None, false, None),
            n(K::Send { receiver: None, method: "flash".into(), args: vec![] }, 0, 5, 0, 5, Some(1)),
            n(K::Sym("notice".into()), 10, 17, 10, 17, Some(0)),
            c(K::Send { receiver: None, method: "t".into(), args: vec![5] }, 21, 34, 21, 22, Some(0), None, None, true, Some(34)),
            n(K::Str(".success".into()), 23, 33, 23, 33, Some(4)),
        ],
        "mail(to: user.email, subject: \"Welcome to My Awesome Site\")\n" => vec![
            c(K::Send { receiver: None, method: "mail".into(), args: vec![1] }, 0, 59, 0, 4, None, None, None, true, Some(59)),
            n(K::Hash(vec![2, 6]), 5, 58, 5, 58, Some(0)),
            c(K::Pair { key: 3, value: 4 }, 5, 19, 5, 19, Some(1), None, Some((7, 8)), false, None),
            n(K::Sym("to".into()), 5, 7, 5, 7, Some(2)),
            c(K::Send { receiver: Some(5), method: "email".into(), args: vec![] }, 9, 19, 14, 19, Some(2), Some((13, 14)), None, false, None),
            n(K::Send { receiver: None, method: "user".into(), args: vec![] }, 9, 13, 9, 13, Some(4)),
            c(K::Pair { key: 7, value: 8 }, 21, 58, 21, 58, Some(1), None, Some((28, 29)), false, None),
            n(K::Sym("subject".into()), 21, 28, 21, 28, Some(6)),
            n(K::Str("Welcome to My Awesome Site".into()), 30, 58, 30, 58, Some(6)),
        ],
        "mail(to: user.email)\n" => vec![
            c(K::Send { receiver: None, method: "mail".into(), args: vec![1] }, 0, 20, 0, 4, None, None, None, true, Some(20)),
            n(K::Hash(vec![2]), 5, 19, 5, 19, Some(0)),
            c(K::Pair { key: 3, value: 4 }, 5, 19, 5, 19, Some(1), None, Some((7, 8)), false, None),
            n(K::Sym("to".into()), 5, 7, 5, 7, Some(2)),
            c(K::Send { receiver: Some(5), method: "email".into(), args: vec![] }, 9, 19, 14, 19, Some(2), Some((13, 14)), None, false, None),
            n(K::Send { receiver: None, method: "user".into(), args: vec![] }, 9, 13, 9, 13, Some(4)),
        ],
        "mail(to: user.email, subject: t(\"mailers.users.welcome\"))\n" => vec![
            c(K::Send { receiver: None, method: "mail".into(), args: vec![1] }, 0, 57, 0, 4, None, None, None, true, Some(57)),
            n(K::Hash(vec![2, 6]), 5, 56, 5, 56, Some(0)),
            c(K::Pair { key: 3, value: 4 }, 5, 19, 5, 19, Some(1), None, Some((7, 8)), false, None),
            n(K::Sym("to".into()), 5, 7, 5, 7, Some(2)),
            c(K::Send { receiver: Some(5), method: "email".into(), args: vec![] }, 9, 19, 14, 19, Some(2), Some((13, 14)), None, false, None),
            n(K::Send { receiver: None, method: "user".into(), args: vec![] }, 9, 13, 9, 13, Some(4)),
            c(K::Pair { key: 7, value: 8 }, 21, 56, 21, 56, Some(1), None, Some((28, 29)), false, None),
            n(K::Sym("subject".into()), 21, 28, 21, 28, Some(6)),
            c(K::Send { receiver: None, method: "t".into(), args: vec![9] }, 30, 56, 30, 31, Some(6), None, None, true, Some(56)),
            n(K::Str("mailers.users.welcome".into()), 32, 55, 32, 55, Some(8)),
        ],
        _ => panic!("no syntax tree for {:?}", src),
    }
}


#[test]
fn flags_validates_message() {
    test().expect_offense(r#"validates :email, presence: { message: "must be present" },
                                       ^^^^^^^^^^^^^^^^^ Move locale texts to the locale files in the `config/locales` directory.
  format: { with: /@/, message: "not an email" },
                                ^^^^^^^^^^^^^^ Move locale texts to the locale files in the `config/locales` directory.
  length: { maximum: 64 }
"#);
}

#[test]
fn does_not_flag_validates_localized() {
    test().expect_no_offenses(r#"validates :email, presence: { message: :email_missing },
  format: { with: /@/, message: I18n.t('email_format') },
  length: { maximum: 64 }
"#);
}

#[test]
fn flags_redirect_to_notice() {
    test().expect_offense(r#"redirect_to root_path, notice: "Post created!"
                               ^^^^^^^^^^^^^^^ Move locale texts to the locale files in the `config/locales` directory.
"#);
}

#[test]
fn flags_redirect_back_notice() {
    test().expect_offense(r#"redirect_back fallback_location: root_path, notice: "Post created!"
                                                    ^^^^^^^^^^^^^^^ Move locale texts to the locale files in the `config/locales` directory.
"#);
}

#[test]
fn flags_redirect_back_or_to() {
    test().expect_offense(r#"redirect_back_or_to root_path, notice: "Post created!"
                                       ^^^^^^^^^^^^^^^ Move locale texts to the locale files in the `config/locales` directory.
"#);
    test().expect_offense(r#"redirect_back_or_to root_path, alert: "Failed to update!"
                                      ^^^^^^^^^^^^^^^^^^^ Move locale texts to the locale files in the `config/locales` directory.
"#);
}

#[test]
fn does_not_flag_redirect_localized() {
    test().expect_no_offenses(
        "redirect_back_or_to root_path, notice: t(\".success\")\n",
    );
    test()
        .expect_no_offenses("redirect_to root_path, notice: t(\".success\")\n");
}

#[test]
fn flags_flash_assignment() {
    test().expect_offense(r#"flash[:notice] = "Post created!"
                 ^^^^^^^^^^^^^^^ Move locale texts to the locale files in the `config/locales` directory.
"#);
}

#[test]
fn flags_flash_now_assignment() {
    test().expect_offense(r#"flash.now[:notice] = "Post created!"
                     ^^^^^^^^^^^^^^^ Move locale texts to the locale files in the `config/locales` directory.
"#);
}

#[test]
fn does_not_flag_flash_localized() {
    test()
        .expect_no_offenses("flash[:notice] = t(\".success\")\n");
    test()
        .expect_no_offenses("flash.now[:notice] = t(\".success\")\n");
}

#[test]
fn flags_mail_subject() {
    test().expect_offense(r#"mail(to: user.email, subject: "Welcome to My Awesome Site")
                              ^^^^^^^^^^^^^^^^^^^^^^^^^^^^ Move locale texts to the locale files in the `config/locales` directory.
"#);
}

#[test]
fn does_not_flag_mail_localized() {
    test().expect_no_offenses("mail(to: user.email)\n");
    test().expect_no_offenses(
        "mail(to: user.email, subject: t(\"mailers.users.welcome\"))\n",
    );
}
