//! File editing: the line-level edits that the file manager applies, and the
//! set of working directories.

use vstd::prelude::*;
use crate::error::{ClaudeError, Result, concat_str, is_general_with};
use crate::text::{seq_join, string_views, split_lines, str_lines, join_strings, push_decimal, decimal,
    split_str, split_str_chars, chars_of, chars_range};
use crate::paths::{file_extension, path_extension};
use crate::image_processing::str_is;

verus! {

/// A requested change to a file.
#[derive(Debug, Clone)]
pub struct Edit {
    /// The file the edit is for.
    pub file_path: String,
    /// What the edit does.
    pub edit_type: EditType,
    /// The text the edit brings.
    pub content: String,
    /// An optional range of lines.
    pub line_range: Option<(usize, usize)>,
}

/// The kinds of edit.
#[derive(Debug, Clone)]
pub enum EditType {
    /// Replace the whole file.
    Replace,
    /// Insert before the given line.
    Insert { line: usize },
    /// Delete the lines `start..=end`.
    Delete { start: usize, end: usize },
    /// Replace the lines `start..=end`.
    ReplaceRange { start: usize, end: usize },
    /// Append at the end of the file.
    Append,
}

/// Facts about a file as the file manager reports them.
#[derive(Debug, Clone)]
pub struct FileMetadata {
    /// Size in bytes.
    pub size: u64,
    /// Whether it is a regular file.
    pub is_file: bool,
    /// Whether it is a directory.
    pub is_dir: bool,
    /// Modification time in seconds since the epoch, if known.
    pub modified: Option<u64>,
    /// Whether it is read-only.
    pub readonly: bool,
}

/// `lines` with `new` inserted before position `at` (`Vec::insert`).
pub open spec fn insert_line(lines: Seq<Seq<char>>, at: int, new: Seq<char>) -> Seq<Seq<char>> {
    lines.take(at) + seq![new] + lines.skip(at)
}

/// `lines` without the lines `start..=end`.
pub open spec fn delete_range(lines: Seq<Seq<char>>, start: int, end: int) -> Seq<Seq<char>> {
    lines.take(start) + lines.skip(end + 1)
}

/// `lines` with the lines `start..=end` replaced by `new_lines`.
pub open spec fn replace_range(lines: Seq<Seq<char>>, start: int, end: int, new_lines: Seq<Seq<char>>) -> Seq<Seq<char>> {
    lines.take(start) + new_lines + lines.skip(end + 1)
}

/// Deleting the line just inserted gives back the lines before the insertion.
pub proof fn law_delete_undoes_insert(lines: Seq<Seq<char>>, at: int, new: Seq<char>)
    requires
        0 <= at <= lines.len(),
    ensures
        delete_range(insert_line(lines, at, new), at, at) == lines,
{
    let ins = insert_line(lines, at, new);
    assert(ins.take(at) =~= lines.take(at));
    assert(ins.skip(at + 1) =~= lines.skip(at));
    assert(lines.take(at) + lines.skip(at) =~= lines);
}

/// Replacing a range of lines by one line is deleting the range and
/// inserting that line where the range began.
pub proof fn law_replace_is_delete_then_insert(lines: Seq<Seq<char>>, start: int, end: int, new: Seq<char>)
    requires
        valid_line_range(lines.len() as int, start, end),
        0 <= start,
    ensures
        replace_range(lines, start, end, seq![new]) == insert_line(delete_range(lines, start, end), start, new),
{
    let del = delete_range(lines, start, end);
    assert(del.take(start) =~= lines.take(start));
    assert(del.skip(start) =~= lines.skip(end + 1));
    assert(replace_range(lines, start, end, seq![new]) =~= insert_line(del, start, new));
}

/// Whether `start..=end` is a range of existing lines of a text with `len` lines.
pub open spec fn valid_line_range(len: int, start: int, end: int) -> bool {
    start < len && end < len && start <= end
}

/// The text whose lines are `lines`, one per line.
pub open spec fn unlines(lines: Seq<Seq<char>>) -> Seq<char> {
    seq_join(lines, "\n"@)
}

/// The lines `0..start` of `lines`, then `middle`, then the lines from `stop` on.
fn splice_lines(lines: &Vec<String>, start: usize, stop: usize, middle: &Vec<String>) -> (res: Vec<String>)
    requires
        start <= stop <= lines.len(),
    ensures
        string_views(res@) == string_views(lines@).take(start as int) + string_views(middle@)
            + string_views(lines@).skip(stop as int),
{
    let ghost lv = string_views(lines@);
    let ghost mv = string_views(middle@);
    let mut res: Vec<String> = Vec::new();
    let mut i: usize = 0;
    while i < start
        invariant
            i <= start <= stop <= lines.len(),
            lv == string_views(lines@),
            string_views(res@) == lv.take(i as int),
        decreases start - i,
    {
        res.push(lines[i].clone());
        assert(lv.take(i + 1) =~= lv.take(i as int).push(lines@[i as int]@));
        assert(string_views(res@) =~= lv.take(i as int).push(lines@[i as int]@));
        i = i + 1;
    }
    let mut j: usize = 0;
    while j < middle.len()
        invariant
            j <= middle.len(),
            mv == string_views(middle@),
            string_views(res@) == lv.take(start as int) + mv.take(j as int),
        decreases middle.len() - j,
    {
        let ghost before = string_views(res@);
        res.push(middle[j].clone());
        assert(mv.take(j + 1) =~= mv.take(j as int).push(middle@[j as int]@));
        assert(string_views(res@) =~= before.push(middle@[j as int]@));
        j = j + 1;
    }
    assert(mv.take(middle.len() as int) =~= mv);
    let mut k: usize = stop;
    while k < lines.len()
        invariant
            stop <= k <= lines.len(),
            lv == string_views(lines@),
            string_views(res@) == lv.take(start as int) + mv + lv.subrange(stop as int, k as int),
        decreases lines.len() - k,
    {
        let ghost before = string_views(res@);
        res.push(lines[k].clone());
        assert(lv.subrange(stop as int, k + 1) =~= lv.subrange(stop as int, k as int).push(lines@[k as int]@));
        assert(string_views(res@) =~= before.push(lines@[k as int]@));
        k = k + 1;
    }
    assert(lv.subrange(stop as int, lines.len() as int) =~= lv.skip(stop as int));
    res
}

/// The file manager used by the command line: it edits files line by line.
pub struct FileManager {
    fs_manager: FileSystemManager,
}

impl FileManager {
    /// A file manager whose only working directory is ".".
    pub fn new() -> (fm: FileManager)
        ensures
            fm.working_dirs() == seq!["."@],
    {
        let mut dirs: Vec<String> = Vec::new();
        dirs.push(String::from_str("."));
        assert(string_views(dirs@) =~= seq!["."@]);
        FileManager { fs_manager: FileSystemManager::new(dirs) }
    }

    /// The working directories of the underlying file system manager.
    pub closed spec fn working_dirs(&self) -> Seq<Seq<char>> {
        self.fs_manager@
    }

    /// `content` with `new_content` inserted as a line before line `line`.
    /// Fails when `line` is beyond the number of lines.
    pub fn insert_at_line(&self, content: &str, line: usize, new_content: &str) -> (res: Result<String>)
        ensures
            res is Err <==> line > split_lines(content@).len(),
            res matches Ok(s) ==> s@ == unlines(insert_line(split_lines(content@), line as int, new_content@)),
            res matches Err(e) ==> is_general_with(e, "File system error: "@,
                "Line "@ + decimal(line as nat) + " is beyond file length "@ + decimal(split_lines(content@).len())),
    {
        let lines = str_lines(content);
        if line > lines.len() {
            let mut msg = String::from_str("Line ");
            push_decimal(&mut msg, line as u64);
            msg.append(" is beyond file length ");
            push_decimal(&mut msg, lines.len() as u64);
            return Err(ClaudeError::fs_error(msg.as_str()));
        }
        let mut middle: Vec<String> = Vec::new();
        middle.push(String::from_str(new_content));
        assert(string_views(middle@) =~= seq![new_content@]);
        let spliced = splice_lines(&lines, line, line, &middle);
        Ok(join_strings(&spliced, "\n"))
    }

    /// `content` without its lines `start..=end`.
    /// Fails unless `start <= end` and both are existing lines.
    pub fn delete_lines(&self, content: &str, start: usize, end: usize) -> (res: Result<String>)
        ensures
            res is Ok <==> valid_line_range(split_lines(content@).len() as int, start as int, end as int),
            res matches Ok(s) ==> s@ == unlines(delete_range(split_lines(content@), start as int, end as int)),
            res matches Err(e) ==> is_general_with(e, "File system error: "@, "Invalid line range for deletion"@),
    {
        let lines = str_lines(content);
        if start >= lines.len() || end >= lines.len() || start > end {
            return Err(ClaudeError::fs_error("Invalid line range for deletion"));
        }
        let middle: Vec<String> = Vec::new();
        assert(string_views(middle@) =~= Seq::<Seq<char>>::empty());
        let spliced = splice_lines(&lines, start, end + 1, &middle);
        assert(string_views(spliced@) =~= delete_range(split_lines(content@), start as int, end as int));
        Ok(join_strings(&spliced, "\n"))
    }

    /// `content` with its lines `start..=end` replaced by the lines of `new_content`.
    /// Fails unless `start <= end` and both are existing lines.
    pub fn replace_lines(&self, content: &str, start: usize, end: usize, new_content: &str) -> (res: Result<String>)
        ensures
            res is Ok <==> valid_line_range(split_lines(content@).len() as int, start as int, end as int),
            res matches Ok(s) ==> s@ == unlines(replace_range(split_lines(content@), start as int, end as int,
                split_lines(new_content@))),
            res matches Err(e) ==> is_general_with(e, "File system error: "@, "Invalid line range for replacement"@),
    {
        let lines = str_lines(content);
        if start >= lines.len() || end >= lines.len() || start > end {
            return Err(ClaudeError::fs_error("Invalid line range for replacement"));
        }
        let middle = str_lines(new_content);
        let spliced = splice_lines(&lines, start, end + 1, &middle);
        Ok(join_strings(&spliced, "\n"))
    }
}

/// The text of a file that may not exist: a missing file reads as empty.
pub open spec fn text_or_empty(o: Option<&str>) -> Seq<char> {
    match o {
        Some(t) => t@,
        None => Seq::empty(),
    }
}

impl FileManager {
    /// The content the file at `file_path` has after `edit`, given its
    /// content now (`None` when it does not exist): a whole-file
    /// replacement gives the edit's text, even for a missing file; an
    /// append adds a newline and the text; the line edits act as
    /// `insert_at_line`, `delete_lines` and `replace_lines` do. Any edit
    /// but a replacement of a missing file is refused.
    pub fn apply_edit(&self, file_path: &str, original: Option<&str>, edit: &Edit) -> (res: Result<String>)
        ensures
            original is None && !(edit.edit_type is Replace) ==> (res matches Err(e)
                && is_general_with(e, "File system error: "@, "File not found: "@ + file_path@)),
            edit.edit_type is Replace ==> (res matches Ok(s) && s@ == edit.content@),
            original is Some && edit.edit_type is Append ==> (res matches Ok(s)
                && s@ == text_or_empty(original) + "\n"@ + edit.content@),
            edit.edit_type matches EditType::Insert { line } ==> original is Some ==> {
                &&& res is Err <==> line > split_lines(text_or_empty(original)).len()
                &&& res matches Ok(s) ==> s@ == unlines(insert_line(split_lines(text_or_empty(original)), line as int, edit.content@))
            },
            edit.edit_type matches EditType::Delete { start, end } ==> original is Some ==> {
                &&& res is Ok <==> valid_line_range(split_lines(text_or_empty(original)).len() as int, start as int, end as int)
                &&& res matches Ok(s) ==> s@ == unlines(delete_range(split_lines(text_or_empty(original)), start as int, end as int))
            },
            edit.edit_type matches EditType::ReplaceRange { start, end } ==> original is Some ==> {
                &&& res is Ok <==> valid_line_range(split_lines(text_or_empty(original)).len() as int, start as int, end as int)
                &&& res matches Ok(s) ==> s@ == unlines(replace_range(split_lines(text_or_empty(original)), start as int,
                    end as int, split_lines(edit.content@)))
            },
    {
        let base = match original {
            Some(t) => t,
            None => {
                match edit.edit_type {
                    EditType::Replace => "",
                    _ => {
                        let msg = concat_str("File not found: ", file_path);
                        return Err(ClaudeError::fs_error(msg.as_str()));
                    },
                }
            },
        };
        proof {
            reveal_strlit("");
            if original is None {
                assert(base@ =~= Seq::<char>::empty());
            }
        }
        match edit.edit_type {
            EditType::Replace => Ok(edit.content.clone()),
            EditType::Insert { line } => self.insert_at_line(base, line, edit.content.as_str()),
            EditType::Delete { start, end } => self.delete_lines(base, start, end),
            EditType::ReplaceRange { start, end } => self.replace_lines(base, start, end, edit.content.as_str()),
            EditType::Append => {
                let mut s = String::from_str(base);
                s.append("\n");
                s.append(edit.content.as_str());
                Ok(s)
            },
        }
    }
}

/// Whether a text is well-formed JSON.
pub uninterp spec fn is_json_text(text: Seq<char>) -> bool;

/// Whether `text` parses as a JSON value (`serde_json::from_str` into
/// `serde_json::Value`). The answer is a function of the text alone;
/// nothing else about it is claimed here.
#[verifier::external_body]
fn parses_as_json(text: &str) -> (b: bool)
    ensures
        b == is_json_text(text@),
{
    serde_json::from_str::<serde_json::Value>(text).is_ok()
}

/// Whether the file at `path` is one whose syntax is checked: a JSON file.
pub open spec fn syntax_checked(path: Seq<char>) -> bool {
    path_extension(path) == Some("json"@)
}

impl FileManager {
    /// Whether the syntax of the file at `file_path` is checked, so that its
    /// text is needed: JSON files are checked.
    pub fn syntax_is_checked(&self, file_path: &str) -> (b: bool)
        ensures
            b == syntax_checked(file_path@),
    {
        match file_extension(file_path) {
            Some(e) => str_is(&e, "json"),
            None => false,
        }
    }

    /// Whether `content`, the text of the file at `file_path`, passes the
    /// syntax check: a JSON file's text must parse; other files pass.
    pub fn validate_syntax(&self, file_path: &str, content: &str) -> (b: bool)
        ensures
            b == (syntax_checked(file_path@) ==> is_json_text(content@)),
    {
        if self.syntax_is_checked(file_path) {
            parses_as_json(content)
        } else {
            true
        }
    }
}

/// The normal parts of a path's pieces between separators, in order: empty
/// pieces (repeated or trailing separators) and `.` pieces left out.
pub open spec fn normal_parts(segs: Seq<Seq<char>>) -> Seq<Seq<char>>
    decreases segs.len(),
{
    if segs.len() == 0 {
        Seq::empty()
    } else {
        let r = normal_parts(segs.drop_last());
        let x = segs.last();
        if x.len() == 0 || x == seq!['.'] { r } else { r.push(x) }
    }
}

/// The components of a path, as `Path::components` documents them: a root
/// (`/`) for an absolute path, a leading `.` for a path that begins with
/// one, then the parts between separators, with repeated separators, a
/// trailing separator and other `.` parts normalised away. Two paths are
/// equal exactly when their components are.
pub open spec fn path_components(s: Seq<char>) -> Seq<Seq<char>> {
    let segs = split_str(s, seq!['/']);
    let head = if s.len() > 0 && s[0] == '/' {
        seq![seq!['/']]
    } else if segs.len() > 0 && segs[0] == seq!['.'] {
        seq![seq!['.']]
    } else {
        Seq::<Seq<char>>::empty()
    };
    head + normal_parts(segs)
}

/// Whether two paths name the same directory: their components are equal.
pub open spec fn same_path(a: Seq<char>, b: Seq<char>) -> bool {
    path_components(a) == path_components(b)
}

fn chars_equal(a: &Vec<char>, b: &Vec<char>) -> (r: bool)
    ensures
        r == (a@ == b@),
{
    if a.len() != b.len() {
        return false;
    }
    let mut i: usize = 0;
    while i < a.len()
        invariant
            a@.len() == b@.len(),
            i <= a@.len(),
            forall|j: int| 0 <= j < i ==> a@[j] == b@[j],
        decreases a.len() - i,
    {
        if a[i] != b[i] {
            return false;
        }
        i = i + 1;
    }
    assert(a@ =~= b@);
    true
}

fn parts_equal(a: &Vec<Vec<char>>, b: &Vec<Vec<char>>) -> (r: bool)
    ensures
        r == (a@.map_values(|w: Vec<char>| w@) == b@.map_values(|w: Vec<char>| w@)),
{
    let ghost av = a@.map_values(|w: Vec<char>| w@);
    let ghost bv = b@.map_values(|w: Vec<char>| w@);
    if a.len() != b.len() {
        assert(av.len() != bv.len());
        return false;
    }
    let mut i: usize = 0;
    while i < a.len()
        invariant
            a@.len() == b@.len(),
            av == a@.map_values(|w: Vec<char>| w@),
            bv == b@.map_values(|w: Vec<char>| w@),
            i <= a@.len(),
            forall|j: int| 0 <= j < i ==> av[j] == bv[j],
        decreases a.len() - i,
    {
        if !chars_equal(&a[i], &b[i]) {
            assert(av[i as int] != bv[i as int]);
            return false;
        }
        i = i + 1;
    }
    assert(av =~= bv);
    true
}

/// The components of the path `s`.
pub fn components_of(s: &str) -> (r: Vec<Vec<char>>)
    ensures
        r@.map_values(|w: Vec<char>| w@) == path_components(s@),
{
    let cs = chars_of(s);
    let mut sep: Vec<char> = Vec::new();
    sep.push('/');
    assert(sep@ =~= seq!['/']);
    let segs = split_str_chars(&cs, &sep);
    let ghost sv = segs@.map_values(|w: Vec<char>| w@);
    let mut r: Vec<Vec<char>> = Vec::new();
    if cs.len() > 0 && cs[0] == '/' {
        r.push(sep.clone());
        assert(r@.map_values(|w: Vec<char>| w@) =~= seq![seq!['/']]);
    } else if segs.len() > 0 && segs[0].len() == 1 && segs[0][0] == '.' {
        let mut dot: Vec<char> = Vec::new();
        dot.push('.');
        assert(sv[0] =~= seq!['.']);
        r.push(dot);
        assert(r@.map_values(|w: Vec<char>| w@) =~= seq![seq!['.']]);
    } else {
        proof {
            if sv.len() > 0 && sv[0] == seq!['.'] {
                assert(sv[0].len() == 1 && sv[0][0] == '.');
                assert(segs@[0]@ == sv[0]);
            }
        }
        assert(r@.map_values(|w: Vec<char>| w@) =~= Seq::<Seq<char>>::empty());
    }
    let ghost head = r@.map_values(|w: Vec<char>| w@);
    let mut i: usize = 0;
    while i < segs.len()
        invariant
            i <= segs@.len(),
            sv == segs@.map_values(|w: Vec<char>| w@),
            r@.map_values(|w: Vec<char>| w@) == head + normal_parts(sv.take(i as int)),
        decreases segs.len() - i,
    {
        let ghost before = r@.map_values(|w: Vec<char>| w@);
        assert(sv.take(i + 1).drop_last() =~= sv.take(i as int));
        assert(sv.take(i + 1).last() == sv[i as int]);
        assert(sv[i as int] == segs@[i as int]@);
        let seg = &segs[i];
        let is_dot = seg.len() == 1 && seg[0] == '.';
        assert(is_dot == (sv[i as int] == seq!['.'])) by {
            if sv[i as int] == seq!['.'] { assert(seg@.len() == 1 && seg@[0] == '.'); }
            if is_dot { assert(seg@ =~= seq!['.']); }
        }
        if seg.len() > 0 && !is_dot {
            let copy = chars_range(seg, 0, seg.len());
            assert(copy@ =~= seg@);
            r.push(copy);
            assert(r@.map_values(|w: Vec<char>| w@) =~= before.push(sv[i as int]));
        }
        i = i + 1;
    }
    assert(sv.take(sv.len() as int) =~= sv);
    r
}

/// The working directories that file operations are resolved against.
pub struct FileSystemManager {
    working_dirs: Vec<String>,
}

impl View for FileSystemManager {
    type V = Seq<Seq<char>>;

    closed spec fn view(&self) -> Seq<Seq<char>> {
        string_views(self.working_dirs@)
    }
}

impl FileSystemManager {
    /// A manager over the given working directories.
    pub fn new(working_dirs: Vec<String>) -> (m: FileSystemManager)
        ensures
            m@ == string_views(working_dirs@),
    {
        FileSystemManager { working_dirs }
    }

    /// Adds `dir` to the working directories unless a directory with the
    /// same components is already among them.
    pub fn add_working_dir(&mut self, dir: String)
        ensures
            (exists|j: int| 0 <= j < old(self)@.len() && same_path(#[trigger] old(self)@[j], dir@))
                ==> final(self)@ == old(self)@,
            !(exists|j: int| 0 <= j < old(self)@.len() && same_path(#[trigger] old(self)@[j], dir@))
                ==> final(self)@ == old(self)@.push(dir@),
    {
        let ghost dv = dir@;
        let target = components_of(dir.as_str());
        let mut i: usize = 0;
        let mut found = false;
        while i < self.working_dirs.len()
            invariant
                i <= self.working_dirs.len(),
                found <==> exists|j: int| 0 <= j < i && same_path(#[trigger] self@[j], dv),
                dir@ == dv,
                target@.map_values(|w: Vec<char>| w@) == path_components(dv),
                self@ == string_views(self.working_dirs@),
            decreases self.working_dirs.len() - i,
        {
            assert(self@[i as int] == self.working_dirs@[i as int]@);
            let here = components_of(self.working_dirs[i].as_str());
            if parts_equal(&here, &target) {
                found = true;
            }
            assert forall|j: int| 0 <= j < i + 1 implies (same_path(#[trigger] self@[j], dv)
                <==> (j < i && same_path(self@[j], dv)) || (j == i && same_path(self@[i as int], dv))) by {}
            i = i + 1;
        }
        if !found {
            let ghost before = self@;
            self.working_dirs.push(dir);
            assert(self@ =~= before.push(dv));
        }
    }

    /// The working directories.
    pub fn get_working_dirs(&self) -> (dirs: &[String])
        ensures
            string_views(dirs@) == self@,
    {
        self.working_dirs.as_slice()
    }
}

} // verus!
