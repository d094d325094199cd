//! Git facts: repository status, commits, branches and diffs.

use vstd::prelude::*;
use std::collections::HashMap;
use std::time::Duration;
use crate::text::{split_lines, str_lines, string_views, chars_of, string_of_range, trim_ws, trim_chars,
    split_str, find_from, chars_range, find_chars, split_str_chars, parse_unsigned, parse_unsigned_str, string_of_chars,
    has_prefix, chars_start_with, is_ws, is_whitespace_char};

verus! {

/// Git仓库状态
#[derive(Debug, Clone)]
pub struct GitStatus {
    /// 当前分支
    pub current_branch: String,
    /// 是否有未提交的更改
    pub has_changes: bool,
    /// 暂存的文件
    pub staged_files: Vec<String>,
    /// 未暂存的文件
    pub unstaged_files: Vec<String>,
    /// 未跟踪的文件
    pub untracked_files: Vec<String>,
    /// 远程分支状态
    pub remote_status: RemoteStatus,
}

/// 远程分支状态
#[derive(Debug, Clone)]
pub struct RemoteStatus {
    /// 领先的提交数
    pub ahead: u32,
    /// 落后的提交数
    pub behind: u32,
    /// 远程分支名
    pub remote_branch: Option<String>,
}

/// Git提交信息
#[derive(Debug, Clone)]
pub struct GitCommit {
    /// 提交哈希
    pub hash: String,
    /// 提交消息
    pub message: String,
    /// 作者
    pub author: String,
    /// 提交时间
    pub timestamp: String,
    /// 文件变更
    pub files_changed: Vec<String>,
}

/// Git分支信息
#[derive(Debug, Clone)]
pub struct GitBranch {
    /// 分支名
    pub name: String,
    /// 是否为当前分支
    pub is_current: bool,
    /// 是否为远程分支
    pub is_remote: bool,
    /// 最后提交哈希
    pub last_commit: Option<String>,
}

/// Git差异信息
#[derive(Debug, Clone)]
pub struct GitDiff {
    /// 文件路径
    pub file_path: String,
    /// 差异内容
    pub diff_content: String,
    /// 添加的行数
    pub lines_added: u32,
    /// 删除的行数
    pub lines_deleted: u32,
}

/// Git管理器
#[derive(Debug, Clone)]
pub struct GitManager {
    /// 工作目录
    working_dir: String,
}

impl GitManager {
    /// The working directory.
    pub closed spec fn working_dir(&self) -> Seq<char> {
        self.working_dir@
    }

    /// A manager for the repository at `working_dir`.
    pub fn new(working_dir: String) -> (m: GitManager)
        ensures
            m.working_dir() == working_dir@,
    {
        GitManager { working_dir }
    }

    /// The working directory, as text.
    pub fn dir(&self) -> (d: &str)
        ensures
            d@ == self.working_dir(),
    {
        self.working_dir.as_str()
    }
}

/// Whether the first three characters of a line (or all of them, when it is
/// shorter) are ASCII, so that byte and character positions agree there.
pub open spec fn ascii_head(l: Seq<char>) -> bool {
    forall|i: int| 0 <= i < l.len() && i < 3 ==> (#[trigger] l[i] as u32) < 128
}

/// The staged, unstaged and untracked paths that the lines of
/// `git status --porcelain` name. A line shorter than three characters
/// names none; "??" marks an untracked path; otherwise a non-space first
/// status character marks the path staged and a non-space second one
/// unstaged. The path starts after the status and a space.
pub open spec fn status_lists(lines: Seq<Seq<char>>) -> (Seq<Seq<char>>, Seq<Seq<char>>, Seq<Seq<char>>)
    decreases lines.len(),
{
    if lines.len() == 0 {
        (Seq::empty(), Seq::empty(), Seq::empty())
    } else {
        let (s, u, n) = status_lists(lines.drop_last());
        let l = lines.last();
        if l.len() < 3 {
            (s, u, n)
        } else {
            let path = l.subrange(3, l.len() as int);
            if l[0] == '?' && l[1] == '?' {
                (s, u, n.push(path))
            } else {
                (if l[0] != ' ' { s.push(path) } else { s }, if l[1] != ' ' { u.push(path) } else { u }, n)
            }
        }
    }
}

/// The staged, unstaged and untracked paths in the output of
/// `git status --porcelain`.
pub fn parse_file_status(output: &str) -> (res: (Vec<String>, Vec<String>, Vec<String>))
    requires
        forall|i: int| 0 <= i < split_lines(output@).len() ==> ascii_head(#[trigger] split_lines(output@)[i]),
    ensures
        (string_views(res.0@), string_views(res.1@), string_views(res.2@)) == status_lists(split_lines(output@)),
{
    let lines = str_lines(output);
    let ghost ls = string_views(lines@);
    let mut staged: Vec<String> = Vec::new();
    let mut unstaged: Vec<String> = Vec::new();
    let mut untracked: Vec<String> = Vec::new();
    let mut i: usize = 0;
    while i < lines.len()
        invariant
            i <= lines@.len(),
            ls == string_views(lines@),
            ls == split_lines(output@),
            (string_views(staged@), string_views(unstaged@), string_views(untracked@)) == status_lists(ls.take(i as int)),
        decreases lines.len() - i,
    {
        let ghost (s0, u0, n0) = (string_views(staged@), string_views(unstaged@), string_views(untracked@));
        proof {
            assert(ls.take(i + 1).drop_last() =~= ls.take(i as int));
            assert(ls.take(i + 1).last() == ls[i as int]);
            assert(ls[i as int] == lines@[i as int]@);
        }
        let cs = chars_of(lines[i].as_str());
        if cs.len() >= 3 {
            let path = string_of_range(&cs, 3, cs.len());
            if cs[0] == '?' && cs[1] == '?' {
                untracked.push(path);
                assert(string_views(untracked@) =~= n0.push(path@));
            } else {
                if cs[0] != ' ' {
                    staged.push(path.clone());
                    assert(string_views(staged@) =~= s0.push(path@));
                }
                if cs[1] != ' ' {
                    unstaged.push(path);
                    assert(string_views(unstaged@) =~= u0.push(path@));
                }
            }
        }
        i = i + 1;
    }
    assert(ls.take(ls.len() as int) =~= ls);
    (staged, unstaged, untracked)
}

/// The pieces of `s` between occurrences of `c` (`str::split` with a
/// character): one more piece than there are occurrences.
pub open spec fn split_on(s: Seq<char>, c: char) -> Seq<Seq<char>>
    decreases s.len(),
{
    if s.len() == 0 {
        seq![Seq::empty()]
    } else {
        let r = split_on(s.drop_last(), c);
        if s.last() == c { r.push(Seq::empty()) } else { r.update(r.len() - 1, r.last().push(s.last())) }
    }
}

proof fn lemma_split_on_len(s: Seq<char>, c: char)
    ensures
        split_on(s, c).len() >= 1,
    decreases s.len(),
{
    if s.len() > 0 {
        lemma_split_on_len(s.drop_last(), c);
    }
}

/// The pieces of `s` between occurrences of `c`.
pub fn split_chars(s: &str, c: char) -> (res: Vec<String>)
    ensures
        string_views(res@) == split_on(s@, c),
{
    let cs = chars_of(s);
    let mut res: Vec<String> = Vec::new();
    let mut cur: Vec<char> = Vec::new();
    let mut i: usize = 0;
    while i < cs.len()
        invariant
            i <= cs@.len(),
            cs@ == s@,
            string_views(res@).push(cur@) == split_on(cs@.take(i as int), c),
        decreases cs.len() - i,
    {
        proof {
            assert(cs@.take(i + 1).drop_last() =~= cs@.take(i as int));
            assert(cs@.take(i + 1).last() == cs@[i as int]);
            lemma_split_on_len(cs@.take(i as int), c);
        }
        let ghost before = string_views(res@);
        let ghost cur0 = cur@;
        if cs[i] == c {
            let piece = crate::text::string_of_chars(&cur);
            res.push(piece);
            cur = Vec::new();
            assert(string_views(res@) =~= before.push(cur0));
            assert(string_views(res@).push(cur@) =~= before.push(cur0).push(Seq::<char>::empty()));
        } else {
            cur.push(cs[i]);
            assert(string_views(res@).push(cur@) =~= before.push(cur0).update(before.len() as int, cur0.push(cs@[i as int])));
        }
        i = i + 1;
    }
    assert(cs@.take(cs@.len() as int) =~= cs@);
    let last = crate::text::string_of_chars(&cur);
    let ghost before = string_views(res@);
    res.push(last);
    assert(string_views(res@) =~= before.push(cur@));
    res
}

/// The commits that the lines of
/// `git log --pretty=format:%H|%s|%an|%ad` describe: a line with at least
/// four `|`-separated fields gives the hash, message, author and date, in
/// that order; other lines are passed over.
pub open spec fn commits_of(lines: Seq<Seq<char>>) -> Seq<(Seq<char>, Seq<char>, Seq<char>, Seq<char>)>
    decreases lines.len(),
{
    if lines.len() == 0 {
        Seq::empty()
    } else {
        let r = commits_of(lines.drop_last());
        let f = split_on(lines.last(), '|');
        if f.len() >= 4 { r.push((f[0], f[1], f[2], f[3])) } else { r }
    }
}

/// The hash, message, author and date of each commit, with no changed
/// files.
pub open spec fn commit_views(v: Seq<GitCommit>) -> Seq<(Seq<char>, Seq<char>, Seq<char>, Seq<char>)> {
    v.map_values(|c: GitCommit| (c.hash@, c.message@, c.author@, c.timestamp@))
}

/// The commits in the output of `git log`.
pub fn parse_commit_log(output: &str) -> (res: Vec<GitCommit>)
    ensures
        commit_views(res@) == commits_of(split_lines(output@)),
        forall|i: int| 0 <= i < res@.len() ==> (#[trigger] res@[i]).files_changed@.len() == 0,
{
    let lines = str_lines(output);
    let ghost ls = string_views(lines@);
    let mut res: Vec<GitCommit> = Vec::new();
    let mut i: usize = 0;
    while i < lines.len()
        invariant
            i <= lines@.len(),
            ls == string_views(lines@),
            ls == split_lines(output@),
            commit_views(res@) == commits_of(ls.take(i as int)),
            forall|j: int| 0 <= j < res@.len() ==> (#[trigger] res@[j]).files_changed@.len() == 0,
        decreases lines.len() - i,
    {
        proof {
            assert(ls.take(i + 1).drop_last() =~= ls.take(i as int));
            assert(ls.take(i + 1).last() == ls[i as int]);
            assert(ls[i as int] == lines@[i as int]@);
        }
        let parts = split_chars(lines[i].as_str(), '|');
        let ghost before = commit_views(res@);
        if parts.len() >= 4 {
            let c = GitCommit {
                hash: parts[0].clone(),
                message: parts[1].clone(),
                author: parts[2].clone(),
                timestamp: parts[3].clone(),
                files_changed: Vec::new(),
            };
            res.push(c);
            proof {
                let f = split_on(ls[i as int], '|');
                assert(f[0] == parts@[0]@ && f[1] == parts@[1]@ && f[2] == parts@[2]@ && f[3] == parts@[3]@);
                assert(commit_views(res@) =~= before.push((f[0], f[1], f[2], f[3])));
            }
        }
        i = i + 1;
    }
    assert(ls.take(ls.len() as int) =~= ls);
    res
}

/// Whether a line that marks the current branch can be read: after
/// trimming, a line starting with `*` has a second character, an ASCII one.
pub open spec fn branch_line_ok(l: Seq<char>) -> bool {
    let t = trim_ws(l);
    t.len() > 0 && t[0] == '*' ==> t.len() >= 2 && (t[1] as u32) < 128
}

/// The branch a line of `git branch -a` names, if any: the trimmed line,
/// without the current-branch mark and what follows it, and without a
/// leading "remotes/" for a remote branch; with whether it is the current
/// branch and whether it is remote. Empty lines name none.
pub open spec fn branch_of(l: Seq<char>) -> Option<(Seq<char>, bool, bool)> {
    let t = trim_ws(l);
    if t.len() == 0 {
        None
    } else {
        let current = t[0] == '*';
        let name = if current { trim_ws(t.subrange(2, t.len() as int)) } else { t };
        let remote = has_prefix(name, "remotes/"@);
        let clean = if remote { name.subrange(8, name.len() as int) } else { name };
        Some((clean, current, remote))
    }
}

/// The branches the lines of `git branch -a` name, in order.
pub open spec fn branches_of(lines: Seq<Seq<char>>) -> Seq<(Seq<char>, bool, bool)>
    decreases lines.len(),
{
    if lines.len() == 0 {
        Seq::empty()
    } else {
        let r = branches_of(lines.drop_last());
        match branch_of(lines.last()) { Some(b) => r.push(b), None => r }
    }
}

/// The name, current flag and remote flag of each branch.
pub open spec fn branch_views(v: Seq<GitBranch>) -> Seq<(Seq<char>, bool, bool)> {
    v.map_values(|b: GitBranch| (b.name@, b.is_current, b.is_remote))
}

/// The branches in the output of `git branch -a`, without last commits.
pub fn parse_branches(output: &str) -> (res: Vec<GitBranch>)
    requires
        forall|i: int| 0 <= i < split_lines(output@).len() ==> branch_line_ok(#[trigger] split_lines(output@)[i]),
    ensures
        branch_views(res@) == branches_of(split_lines(output@)),
        forall|i: int| 0 <= i < res@.len() ==> (#[trigger] res@[i]).last_commit is None,
{
    let lines = str_lines(output);
    let ghost ls = string_views(lines@);
    let mut res: Vec<GitBranch> = Vec::new();
    let mut i: usize = 0;
    while i < lines.len()
        invariant
            i <= lines@.len(),
            ls == string_views(lines@),
            ls == split_lines(output@),
            forall|k: int| 0 <= k < ls.len() ==> branch_line_ok(#[trigger] ls[k]),
            branch_views(res@) == branches_of(ls.take(i as int)),
            forall|j: int| 0 <= j < res@.len() ==> (#[trigger] res@[j]).last_commit is None,
        decreases lines.len() - i,
    {
        proof {
            assert(ls.take(i + 1).drop_last() =~= ls.take(i as int));
            assert(ls.take(i + 1).last() == ls[i as int]);
            assert(ls[i as int] == lines@[i as int]@);
            assert(branch_line_ok(ls[i as int]));
        }
        let ghost before = branch_views(res@);
        let t = trim_chars(&chars_of(lines[i].as_str()));
        let tc = chars_of(t.as_str());
        if tc.len() > 0 {
            let current = tc[0] == '*';
            let name = if current {
                trim_chars(&chars_of(string_of_range(&tc, 2, tc.len()).as_str()))
            } else {
                t
            };
            let nc = chars_of(name.as_str());
            let remote = chars_start_with(&nc, "remotes/");
            let clean = if remote {
                proof { reveal_strlit("remotes/"); }
                string_of_range(&nc, 8, nc.len())
            } else {
                name
            };
            let b = GitBranch { name: clean, is_current: current, is_remote: remote, last_commit: None };
            res.push(b);
            assert(branch_views(res@) =~= before.push((b.name@, current, remote)));
        }
        i = i + 1;
    }
    assert(ls.take(ls.len() as int) =~= ls);
    res
}

/// The whitespace-separated words of `s` (`str::split_whitespace`).
pub open spec fn words(s: Seq<char>) -> Seq<Seq<char>>
    decreases s.len(),
{
    if s.len() == 0 {
        Seq::empty()
    } else {
        let r = words(s.drop_last());
        let c = s.last();
        if is_ws(c) {
            r
        } else if s.len() >= 2 && !is_ws(s[s.len() - 2]) {
            r.update(r.len() - 1, r.last().push(c))
        } else {
            r.push(seq![c])
        }
    }
}

proof fn lemma_words_nonempty(s: Seq<char>)
    requires
        s.len() > 0,
        !is_ws(s.last()),
    ensures
        words(s).len() >= 1,
    decreases s.len(),
{
    if s.len() >= 2 && !is_ws(s[s.len() - 2]) {
        assert(s.drop_last().last() == s[s.len() - 2]);
        lemma_words_nonempty(s.drop_last());
    }
}

/// The views of a list of character lists.
pub open spec fn char_views(v: Seq<Vec<char>>) -> Seq<Seq<char>> {
    v.map_values(|w: Vec<char>| w@)
}

/// The words of `cs`.
fn words_of(cs: &Vec<char>) -> (res: Vec<Vec<char>>)
    ensures
        char_views(res@) == words(cs@),
{
    let mut res: Vec<Vec<char>> = Vec::new();
    let mut i: usize = 0;
    while i < cs.len()
        invariant
            i <= cs@.len(),
            char_views(res@) == words(cs@.take(i as int)),
        decreases cs.len() - i,
    {
        let ghost s = cs@.take(i + 1);
        proof {
            assert(s.drop_last() =~= cs@.take(i as int));
            assert(s.last() == cs@[i as int]);
        }
        let ghost before = char_views(res@);
        let c = cs[i];
        if is_whitespace_char(c) {
        } else if i >= 1 && !is_whitespace_char(cs[i - 1]) {
            proof {
                assert(s[s.len() - 2] == cs@[i - 1]);
                assert(cs@.take(i as int).last() == cs@[i - 1]);
                lemma_words_nonempty(cs@.take(i as int));
            }
            let mut w = res.pop().unwrap();
            w.push(c);
            res.push(w);
            assert(char_views(res@) =~= before.update(before.len() - 1, before.last().push(c)));
        } else {
            let mut w: Vec<char> = Vec::new();
            w.push(c);
            res.push(w);
            assert(char_views(res@) =~= before.push(seq![c]));
        }
        i = i + 1;
    }
    assert(cs@.take(cs@.len() as int) =~= cs@);
    res
}

/// The state of reading a diff: the finished file diffs, the file being
/// read (if any), its text so far and its added and deleted line counts.
pub type DiffState = (Seq<(Seq<char>, Seq<char>, nat, nat)>, Option<Seq<char>>, Seq<char>, nat, nat);

/// The file a `diff --git` line names: its fourth word without a leading
/// "b/", if it has four words.
pub open spec fn diff_file_of(line: Seq<char>) -> Option<Seq<char>> {
    let w = words(line);
    if w.len() > 3 {
        Some(if has_prefix(w[3], "b/"@) { w[3].subrange(2, w[3].len() as int) } else { w[3] })
    } else {
        None
    }
}

/// The state after reading one line of `git diff` output. A `diff --git`
/// line closes the file being read and starts the next; a line starting
/// with `+` (not `+++`) is an added line and one starting with `-` (not
/// `---`) a deleted line; every line but the headers joins the text, with a
/// newline.
pub open spec fn diff_step(st: DiffState, line: Seq<char>) -> DiffState {
    let (done, cur, text, added, deleted) = st;
    if has_prefix(line, "diff --git"@) {
        match cur {
            Some(f) => (done.push((f, text, added, deleted)), diff_file_of(line), Seq::empty(), 0, 0),
            None => (done, diff_file_of(line), text, added, deleted),
        }
    } else if has_prefix(line, "+"@) && !has_prefix(line, "+++"@) {
        (done, cur, text + line + seq!['\n'], added + 1, deleted)
    } else if has_prefix(line, "-"@) && !has_prefix(line, "---"@) {
        (done, cur, text + line + seq!['\n'], added, deleted + 1)
    } else {
        (done, cur, text + line + seq!['\n'], added, deleted)
    }
}

/// The state after reading the lines in order.
pub open spec fn diff_fold(lines: Seq<Seq<char>>) -> DiffState
    decreases lines.len(),
{
    if lines.len() == 0 {
        (Seq::empty(), None, Seq::empty(), 0, 0)
    } else {
        diff_step(diff_fold(lines.drop_last()), lines.last())
    }
}

/// The file diffs of a `git diff` output: the ones closed while reading,
/// and the one being read at the end.
pub open spec fn diffs_of(lines: Seq<Seq<char>>) -> Seq<(Seq<char>, Seq<char>, nat, nat)> {
    let (done, cur, text, added, deleted) = diff_fold(lines);
    match cur {
        Some(f) => done.push((f, text, added, deleted)),
        None => done,
    }
}

/// The path, text and counts of each file diff.
pub open spec fn diff_views(v: Seq<GitDiff>) -> Seq<(Seq<char>, Seq<char>, nat, nat)> {
    v.map_values(|d: GitDiff| (d.file_path@, d.diff_content@, d.lines_added as nat, d.lines_deleted as nat))
}

proof fn lemma_counts_bounded(lines: Seq<Seq<char>>)
    ensures
        diff_fold(lines).3 <= lines.len(),
        diff_fold(lines).4 <= lines.len(),
    decreases lines.len(),
{
    if lines.len() > 0 {
        lemma_counts_bounded(lines.drop_last());
    }
}

/// The file diffs in the output of `git diff`.
pub fn parse_diff(output: &str) -> (res: Vec<GitDiff>)
    requires
        split_lines(output@).len() < u32::MAX,
    ensures
        diff_views(res@) == diffs_of(split_lines(output@)),
{
    let lines = str_lines(output);
    let ghost ls = string_views(lines@);
    let mut diffs: Vec<GitDiff> = Vec::new();
    let mut current: Option<String> = None;
    let mut content = String::new();
    let mut added: u32 = 0;
    let mut deleted: u32 = 0;
    let mut i: usize = 0;
    while i < lines.len()
        invariant
            i <= lines@.len(),
            ls == string_views(lines@),
            ls == split_lines(output@),
            ls.len() < u32::MAX,
            ({
                let (done, cur, text, a, d) = diff_fold(ls.take(i as int));
                &&& diff_views(diffs@) == done
                &&& cur == match current { Some(s) => Some(s@), None => None::<Seq<char>> }
                &&& text == content@
                &&& a == added as nat
                &&& d == deleted as nat
            }),
        decreases lines.len() - i,
    {
        proof {
            assert(ls.take(i + 1).drop_last() =~= ls.take(i as int));
            assert(ls.take(i + 1).last() == ls[i as int]);
            assert(ls[i as int] == lines@[i as int]@);
            lemma_counts_bounded(ls.take(i as int));
        }
        let ghost before = diff_views(diffs@);
        let line = lines[i].as_str();
        let lc = chars_of(line);
        if chars_start_with(&lc, "diff --git") {
            match current {
                Some(f) => {
                    let d = GitDiff { file_path: f, diff_content: content, lines_added: added, lines_deleted: deleted };
                    diffs.push(d);
                    assert(diff_views(diffs@) =~= before.push((d.file_path@, d.diff_content@, d.lines_added as nat, d.lines_deleted as nat)));
                    content = String::new();
                    added = 0;
                    deleted = 0;
                },
                None => {},
            }
            let ws = words_of(&lc);
            current = if ws.len() > 3 {
                let w3 = &ws[3];
                if chars_start_with(w3, "b/") {
                    proof { reveal_strlit("b/"); }
                    Some(string_of_range(w3, 2, w3.len()))
                } else {
                    Some(crate::text::string_of_chars(w3))
                }
            } else {
                None
            };
        } else {
            let plus = chars_start_with(&lc, "+") && !chars_start_with(&lc, "+++");
            let minus = !plus && chars_start_with(&lc, "-") && !chars_start_with(&lc, "---");
            if plus {
                added = added + 1;
            } else if minus {
                deleted = deleted + 1;
            }
            content.append(line);
            crate::text::string_push_char(&mut content, '\n');
        }
        i = i + 1;
    }
    assert(ls.take(ls.len() as int) =~= ls);
    match current {
        Some(f) => {
            let ghost before = diff_views(diffs@);
            let d = GitDiff { file_path: f, diff_content: content, lines_added: added, lines_deleted: deleted };
            diffs.push(d);
            assert(diff_views(diffs@) =~= before.push((d.file_path@, d.diff_content@, d.lines_added as nat, d.lines_deleted as nat)));
        },
        None => {},
    }
    diffs
}

} // verus!
verus! {

/// The first line of `s`, or nothing when `s` has no line.
pub open spec fn first_line(s: Seq<char>) -> Seq<char> {
    let ls = split_lines(s);
    if ls.len() > 0 { ls[0] } else { Seq::empty() }
}

/// On the branch line of `git status --porcelain=v1 --branch`
/// (`## local...remote [ahead 1, behind 2]`), what follows the first `...`
/// up to any later `...`; nothing on another line or without `...`.
pub open spec fn tracking_of(line: Seq<char>) -> Option<Seq<char>> {
    if has_prefix(line, "## "@) {
        let pieces = split_str(line.subrange(3, line.len() as int), seq!['.', '.', '.']);
        if pieces.len() > 1 { Some(pieces[1]) } else { None }
    } else {
        None
    }
}

/// The text between the first `[` and the first `]` of `t`, where both occur.
pub open spec fn bracketed(t: Seq<char>) -> Option<Seq<char>> {
    match (find_from(t, seq!['['], 0), find_from(t, seq![']'], 0)) {
        (Some(b), Some(e)) => Some(t.subrange(b + 1, e)),
        _ => None,
    }
}

/// Whether the first `]` of `t` does not come before its first `[`.
pub open spec fn brackets_in_order(t: Seq<char>) -> bool {
    match (find_from(t, seq!['['], 0), find_from(t, seq![']'], 0)) {
        (Some(b), Some(e)) => b < e,
        _ => true,
    }
}

/// The count that the last of `parts` beginning with `label` gives after the
/// label, read as a `u32` (0 where it is no such number); 0 where no part
/// begins with `label`.
pub open spec fn count_after(parts: Seq<Seq<char>>, label: Seq<char>) -> nat
    decreases parts.len(),
{
    if parts.len() == 0 {
        0
    } else if has_prefix(parts.last(), label) {
        match parse_unsigned(parts.last().subrange(label.len() as int, parts.last().len() as int), u32::MAX as nat) {
            Some(n) => n,
            None => 0,
        }
    } else {
        count_after(parts.drop_last(), label)
    }
}

/// The remote branch that the tracking text names: its first word.
pub open spec fn remote_branch_of(t: Seq<char>) -> Option<Seq<char>> {
    let w = words(t);
    if w.len() > 0 { Some(w[0]) } else { None }
}

/// The parts of the bracketed text of `t`, separated by `, `.
pub open spec fn tracking_parts(t: Seq<char>) -> Seq<Seq<char>> {
    match bracketed(t) {
        Some(inner) => split_str(inner, seq![',', ' ']),
        None => Seq::empty(),
    }
}

/// Whether reading the remote status from `output` stays within its text:
/// the branch line has no `]` before its `[`.
pub open spec fn remote_status_defined(output: Seq<char>) -> bool {
    match tracking_of(first_line(output)) {
        Some(t) => brackets_in_order(t),
        None => true,
    }
}

/// The remote status that `git status --porcelain=v1 --branch` reports on its
/// first line: commits ahead, commits behind, and the remote branch; zeros and
/// no branch where the line tracks no remote.
pub open spec fn remote_status_of(output: Seq<char>) -> (nat, nat, Option<Seq<char>>) {
    match tracking_of(first_line(output)) {
        Some(t) => (
            count_after(tracking_parts(t), "ahead "@),
            count_after(tracking_parts(t), "behind "@),
            remote_branch_of(t),
        ),
        None => (0, 0, None),
    }
}

/// The view of an optional string.
pub open spec fn opt_string_view(o: Option<String>) -> Option<Seq<char>> {
    match o {
        Some(s) => Some(s@),
        None => None,
    }
}

/// The count after `label` in a part that begins with it.
fn count_in_part(part: &Vec<char>, label: &str) -> (n: u32)
    requires
        has_prefix(part@, label@),
    ensures
        n as nat == match parse_unsigned(part@.subrange(label@.len() as int, part@.len() as int), u32::MAX as nat) {
            Some(v) => v,
            None => 0,
        },
{
    let lc = chars_of(label);
    let num = string_of_range(part, lc.len(), part.len());
    match parse_unsigned_str(num.as_str(), 4294967295u64) {
        Some(v) => v as u32,
        None => 0,
    }
}

/// Reads the remote status from the output of
/// `git status --porcelain=v1 --branch`.
pub fn parse_remote_status(output: &str) -> (res: RemoteStatus)
    requires
        remote_status_defined(output@),
    ensures
        res.ahead as nat == remote_status_of(output@).0,
        res.behind as nat == remote_status_of(output@).1,
        opt_string_view(res.remote_branch) == remote_status_of(output@).2,
{
    proof {
        reveal_strlit("## ");
        reveal_strlit("ahead ");
        reveal_strlit("behind ");
    }
    let none = RemoteStatus { ahead: 0, behind: 0, remote_branch: None };
    let lines = str_lines(output);
    if lines.len() == 0 {
        return none;
    }
    let fc = chars_of(lines[0].as_str());
    assert(fc@ == first_line(output@));
    if !chars_start_with(&fc, "## ") {
        return none;
    }
    let info = chars_range(&fc, 3, fc.len());
    let dots = vec!['.', '.', '.'];
    let pieces = split_str_chars(&info, &dots);
    if pieces.len() < 2 {
        return none;
    }
    let t: &Vec<char> = &pieces[1];
    assert(tracking_of(first_line(output@)) == Some(t@));
    let w = words_of(t);
    let remote_branch = if w.len() > 0 { Some(string_of_chars(&w[0])) } else { None };
    let mut ahead: u32 = 0;
    let mut behind: u32 = 0;
    let open_b = vec!['['];
    let close_b = vec![']'];
    assert(open_b@ =~= seq!['[']);
    assert(close_b@ =~= seq![']']);
    let ob = find_chars(t, &open_b);
    let cb = find_chars(t, &close_b);
    match (ob, cb) {
        (Some(b), Some(e)) => {
            let inner = chars_range(t, b + 1, e);
            let sep = vec![',', ' '];
            assert(sep@ =~= seq![',', ' ']);
            let parts = split_str_chars(&inner, &sep);
            let ghost ps = parts@.map_values(|v: Vec<char>| v@);
            assert(ps == tracking_parts(t@));
            let mut i: usize = 0;
            while i < parts.len()
                invariant
                    i <= parts.len(),
                    ps == parts@.map_values(|v: Vec<char>| v@),
                    ahead as nat == count_after(ps.take(i as int), "ahead "@),
                    behind as nat == count_after(ps.take(i as int), "behind "@),
                decreases parts.len() - i,
            {
                let part: &Vec<char> = &parts[i];
                proof {
                    reveal_strlit("ahead ");
                    reveal_strlit("behind ");
                }
                assert(ps.take(i + 1).drop_last() =~= ps.take(i as int));
                assert(ps.take(i + 1).last() == part@);
                if chars_start_with(part, "ahead ") {
                    ahead = count_in_part(part, "ahead ");
                    assert(!has_prefix(part@, "behind "@)) by {
                        assert(part@.subrange(0, 6)[0] == part@[0]);
                        if has_prefix(part@, "behind "@) {
                            assert(part@.subrange(0, 7)[0] == part@[0]);
                        }
                    }
                } else if chars_start_with(part, "behind ") {
                    behind = count_in_part(part, "behind ");
                }
                i = i + 1;
            }
            assert(ps.take(parts.len() as int) =~= ps);
        },
        _ => {},
    }
    RemoteStatus { ahead, behind, remote_branch }
}

/// Whether `parse_remote_status` can read `output`: the branch line has no
/// `]` before its `[`.
pub fn remote_status_readable(output: &str) -> (b: bool)
    ensures
        b == remote_status_defined(output@),
{
    proof {
        reveal_strlit("## ");
    }
    let lines = str_lines(output);
    if lines.len() == 0 {
        return true;
    }
    let fc = chars_of(lines[0].as_str());
    assert(fc@ == first_line(output@));
    if !chars_start_with(&fc, "## ") {
        return true;
    }
    let info = chars_range(&fc, 3, fc.len());
    let dots = vec!['.', '.', '.'];
    let pieces = split_str_chars(&info, &dots);
    if pieces.len() < 2 {
        return true;
    }
    let t: &Vec<char> = &pieces[1];
    assert(tracking_of(first_line(output@)) == Some(t@));
    let open_b = vec!['['];
    let close_b = vec![']'];
    assert(open_b@ =~= seq!['[']);
    assert(close_b@ =~= seq![']']);
    match (find_chars(t, &open_b), find_chars(t, &close_b)) {
        (Some(b), Some(e)) => b < e,
        _ => true,
    }
}

} // verus!
