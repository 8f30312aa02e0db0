//! Paths as text, and the small rules of the workspace directory.
//!
//! A path is a string with `/` between its components, as inside the
//! containers that the pipeline starts. Empty components and `.` carry no
//! meaning and are passed over.

use crate::text::{chars_of, decimal, decimal_string, equal, in_order, join, joined,
    lemma_split_concat, lemma_split_nonempty, lemma_split_separator, lines,
    lines_of, lowercase, lowercase_of, push_range, replace_char, sort, split, split_on, texts,
    trim, trimmed, with_char_replaced};
use crate::yaml::{optional_texts, read_keys, yaml_keys_of};
use vstd::prelude::*;

verus! {

/// The workspace directory under the repository root.
pub const OAV_DIR: &'static str = ".oav";

/// Whether a piece between two separators names something.
pub open spec fn is_component(piece: Seq<char>) -> bool {
    piece.len() > 0 && piece != "."@
}

/// The pieces that name something, in order.
pub open spec fn components_among(pieces: Seq<Seq<char>>) -> Seq<Seq<char>>
    decreases pieces.len(),
{
    if pieces.len() == 0 {
        Seq::empty()
    } else {
        let before = components_among(pieces.drop_last());
        if is_component(pieces.last()) {
            before.push(pieces.last())
        } else {
            before
        }
    }
}

/// The components of a path.
pub open spec fn components_of(path: Seq<char>) -> Seq<Seq<char>> {
    components_among(split_on(path, '/'))
}

/// The components of a path.
pub fn components(path: &str) -> (out: Vec<String>)
    ensures
        texts(out@) == components_of(path@),
{
    let pieces = split(path, '/');
    let mut out: Vec<String> = Vec::new();
    let mut i: usize = 0;
    while i < pieces.len()
        invariant
            i <= pieces.len(),
            texts(out@) == components_among(texts(pieces@).take(i as int)),
        decreases pieces.len() - i,
    {
        let piece = pieces[i].as_str();
        let ghost before = texts(out@);
        assert(texts(pieces@).take(i + 1).drop_last() =~= texts(pieces@).take(i as int));
        assert(texts(pieces@).take(i + 1).last() == piece@);
        if !piece.is_empty() && !equal(piece, ".") {
            out.push(pieces[i].clone());
            assert(texts(out@) =~= before.push(piece@));
        }
        i += 1;
    }
    assert(texts(pieces@).take(i as int) =~= texts(pieces@));
    out
}

/// Whether a path starts at the root of the file system.
pub open spec fn is_absolute(path: Seq<char>) -> bool {
    path.len() > 0 && path[0] == '/'
}

/// `base` extended by `rel`. An absolute `rel` stands for itself.
pub open spec fn joined_path(base: Seq<char>, rel: Seq<char>) -> Seq<char> {
    if is_absolute(rel) {
        rel
    } else if base.len() == 0 || base.last() == '/' {
        base + rel
    } else {
        base + seq!['/'] + rel
    }
}

/// `base` extended by `rel`, with one separator between them.
pub fn join_path(base: &str, rel: &str) -> (out: String)
    ensures
        out@ == joined_path(base@, rel@),
{
    let b = chars_of(base);
    let r = chars_of(rel);
    let mut out = String::new();
    if r.len() > 0 && r[0] == '/' {
        push_range(&mut out, &r, 0, r.len());
        assert(out@ =~= rel@);
        return out;
    }
    push_range(&mut out, &b, 0, b.len());
    if b.len() > 0 && b[b.len() - 1] != '/' {
        out.push('/');
    }
    push_range(&mut out, &r, 0, r.len());
    assert(out@ =~= joined_path(base@, rel@));
    out
}

/// The last component of a path, unless there is none or it is `..`.
pub open spec fn file_name_of(path: Seq<char>) -> Option<Seq<char>> {
    let parts = components_of(path);
    if parts.len() == 0 || parts.last() == ".."@ {
        None
    } else {
        Some(parts.last())
    }
}

/// The last component of a path, unless there is none or it is `..`.
pub fn file_name(path: &str) -> (name: Option<String>)
    ensures
        match name {
            Some(n) => file_name_of(path@) == Some(n@),
            None => file_name_of(path@).is_none(),
        },
{
    let mut parts = components(path);
    match parts.pop() {
        None => None,
        Some(last) => {
            if equal(last.as_str(), "..") {
                None
            } else {
                Some(last)
            }
        },
    }
}

/// Where `c` stands last in `s`.
pub open spec fn last_index_of(s: Seq<char>, c: char) -> Option<int>
    decreases s.len(),
{
    if s.len() == 0 {
        None
    } else if s.last() == c {
        Some(s.len() - 1)
    } else {
        last_index_of(s.drop_last(), c)
    }
}

/// The last occurrence is where the character stands and does not stand
/// behind.
proof fn lemma_last_index_of(s: Seq<char>, c: char, d: int)
    requires
        0 <= d < s.len(),
        s[d] == c,
        forall|k: int| d < k < s.len() ==> s[k] != c,
    ensures
        last_index_of(s, c) == Some(d),
    decreases s.len(),
{
    if d < s.len() - 1 {
        lemma_last_index_of(s.drop_last(), c, d);
    }
}

/// A character that stands nowhere has no last occurrence.
proof fn lemma_no_index_of(s: Seq<char>, c: char)
    requires
        forall|k: int| 0 <= k < s.len() ==> s[k] != c,
    ensures
        last_index_of(s, c).is_none(),
    decreases s.len(),
{
    if s.len() > 0 {
        lemma_no_index_of(s.drop_last(), c);
    }
}

/// Where the extension of a file name starts: behind its last dot, unless the
/// name has no dot or only the one it begins with.
pub open spec fn extension_dot(name: Seq<char>) -> Option<int> {
    match last_index_of(name, '.') {
        Some(d) => if d == 0 {
            None
        } else {
            Some(d)
        },
        None => None,
    }
}

/// The extension of the file that a path names.
pub open spec fn extension_of(path: Seq<char>) -> Option<Seq<char>> {
    match file_name_of(path) {
        Some(name) => match extension_dot(name) {
            Some(d) => Some(name.skip(d + 1)),
            None => None,
        },
        None => None,
    }
}

/// The name without extension of the file that a path names.
pub open spec fn file_stem_of(path: Seq<char>) -> Option<Seq<char>> {
    match file_name_of(path) {
        Some(name) => match extension_dot(name) {
            Some(d) => Some(name.take(d)),
            None => Some(name),
        },
        None => None,
    }
}

/// Splits a file name at the dot of its extension.
fn find_extension_dot(name: &Vec<char>) -> (dot: Option<usize>)
    ensures
        match dot {
            Some(d) => extension_dot(name@) == Some(d as int) && d < name.len(),
            None => extension_dot(name@).is_none(),
        },
{
    let mut i: usize = name.len();
    while i > 0 && name[i - 1] != '.'
        invariant
            i <= name.len(),
            forall|k: int| i <= k < name.len() ==> name@[k] != '.',
        decreases i,
    {
        i -= 1;
    }
    if i == 0 {
        proof {
            lemma_no_index_of(name@, '.');
        }
        None
    } else {
        proof {
            lemma_last_index_of(name@, '.', i - 1);
        }
        if i - 1 == 0 {
            None
        } else {
            Some(i - 1)
        }
    }
}

/// The extension of the file that a path names.
pub fn extension(path: &str) -> (ext: Option<String>)
    ensures
        match ext {
            Some(e) => extension_of(path@) == Some(e@),
            None => extension_of(path@).is_none(),
        },
{
    match file_name(path) {
        None => None,
        Some(name) => {
            let v = chars_of(name.as_str());
            match find_extension_dot(&v) {
                None => None,
                Some(d) => {
                    let mut out = String::new();
                    push_range(&mut out, &v, d + 1, v.len());
                    assert(out@ =~= v@.skip(d + 1));
                    Some(out)
                },
            }
        },
    }
}

/// The name without extension of the file that a path names.
pub fn file_stem(path: &str) -> (stem: Option<String>)
    ensures
        match stem {
            Some(s) => file_stem_of(path@) == Some(s@),
            None => file_stem_of(path@).is_none(),
        },
{
    match file_name(path) {
        None => None,
        Some(name) => {
            let v = chars_of(name.as_str());
            match find_extension_dot(&v) {
                None => Some(name),
                Some(d) => {
                    let mut out = String::new();
                    push_range(&mut out, &v, 0, d);
                    assert(out@ =~= v@.take(d as int));
                    Some(out)
                },
            }
        },
    }
}

/// A path in the form that containers read: every backslash becomes a slash.
pub fn to_posix_path(path: &str) -> (out: String)
    ensures
        out@ == with_char_replaced(path@, '\\', '/'),
{
    replace_char(path, '\\', '/')
}

/// The workspace directory of a repository.
pub open spec fn workspace_of(root: Seq<char>) -> Seq<char> {
    joined_path(root, OAV_DIR@)
}

/// The workspace directory of a repository.
pub fn workspace(root: &str) -> (out: String)
    ensures
        out@ == workspace_of(root@),
{
    join_path(root, OAV_DIR)
}

/// Where the reports of a stage go.
pub open spec fn stage_reports_of(root: Seq<char>, stage: Seq<char>) -> Seq<char> {
    joined_path(joined_path(workspace_of(root), "reports"@), stage)
}

/// Where the reports of a stage go.
pub fn stage_reports(root: &str, stage: &str) -> (out: String)
    ensures
        out@ == stage_reports_of(root@, stage@),
{
    let reports = join_path(workspace(root).as_str(), "reports");
    join_path(reports.as_str(), stage)
}

/// `path` as seen from `base`: what is left of its components behind those of
/// `base`. There is no such path where `base` is no prefix of `path`,
/// component by component, or where one of the two is absolute and the other
/// is not.
pub open spec fn relative_to(path: Seq<char>, base: Seq<char>) -> Option<Seq<char>> {
    if is_absolute(path) == is_absolute(base) && components_of(base).is_prefix_of(
        components_of(path),
    ) {
        Some(joined(components_of(path).skip(components_of(base).len() as int), "/"@))
    } else {
        None
    }
}

/// Whether a path starts at the root of the file system.
fn absolute(path: &str) -> (r: bool)
    ensures
        r == is_absolute(path@),
{
    let v = chars_of(path);
    v.len() > 0 && v[0] == '/'
}

/// `path` as seen from `base`.
pub fn strip_prefix(path: &str, base: &str) -> (rest: Option<String>)
    ensures
        match rest {
            Some(r) => relative_to(path@, base@) == Some(r@),
            None => relative_to(path@, base@).is_none(),
        },
{
    if absolute(path) != absolute(base) {
        return None;
    }
    let whole = components(path);
    let prefix = components(base);
    if prefix.len() > whole.len() {
        return None;
    }
    let mut i: usize = 0;
    while i < prefix.len()
        invariant
            i <= prefix.len() <= whole.len(),
            texts(whole@) == components_of(path@),
            texts(prefix@) == components_of(base@),
            forall|j: int| 0 <= j < i ==> texts(whole@)[j] == texts(prefix@)[j],
        decreases prefix.len() - i,
    {
        if !equal(whole[i].as_str(), prefix[i].as_str()) {
            assert(texts(whole@).subrange(0, prefix@.len() as int)[i as int] != texts(prefix@)[i as int]);
            return None;
        }
        i += 1;
    }
    assert(texts(prefix@) =~= texts(whole@).subrange(0, prefix@.len() as int));
    let mut rest: Vec<String> = Vec::new();
    let mut k: usize = prefix.len();
    while k < whole.len()
        invariant
            prefix.len() <= k <= whole.len(),
            texts(rest@) == texts(whole@).subrange(prefix.len() as int, k as int),
        decreases whole.len() - k,
    {
        let part = whole[k].clone();
        let ghost before = texts(rest@);
        rest.push(part);
        k += 1;
        assert(texts(rest@) =~= before.push(part@));
        assert(texts(rest@) =~= texts(whole@).subrange(prefix.len() as int, k as int));
    }
    assert(texts(rest@) =~= texts(whole@).skip(prefix.len() as int));
    Some(join(&rest, "/"))
}

/// Why a document cannot be taken.
#[derive(Debug)]
pub enum SpecPathError {
    /// There is no file at the path.
    NotFound { path: String },
    /// The file lies outside the repository.
    OutsideRepository,
}

/// The text of a `SpecPathError`.
pub enum SpecPathErrorView {
    NotFound { path: Seq<char> },
    OutsideRepository,
}

impl View for SpecPathError {
    type V = SpecPathErrorView;

    open spec fn view(&self) -> SpecPathErrorView {
        match self {
            SpecPathError::NotFound { path } => SpecPathErrorView::NotFound { path: path@ },
            SpecPathError::OutsideRepository => SpecPathErrorView::OutsideRepository,
        }
    }
}

/// What the error says.
pub open spec fn spec_path_error_message(e: SpecPathErrorView) -> Seq<char> {
    match e {
        SpecPathErrorView::NotFound { path } => "Spec file not found: "@ + path,
        SpecPathErrorView::OutsideRepository => "Spec path must be inside the repository"@,
    }
}

impl SpecPathError {
    /// What the error says.
    pub fn message(&self) -> (out: String)
        ensures
            out@ == spec_path_error_message(self@),
    {
        match self {
            SpecPathError::NotFound { path } => {
                let mut out = String::from_str("Spec file not found: ");
                out.append(path.as_str());
                out
            },
            SpecPathError::OutsideRepository => String::from_str(
                "Spec path must be inside the repository",
            ),
        }
    }
}

/// Where the document lies that is configured as `spec`: under the root,
/// unless `spec` is absolute.
pub fn absolute_spec_path(root: &str, spec: &str) -> (path: String)
    ensures
        path@ == joined_path(root@, spec@),
{
    join_path(root, spec)
}

/// The path of the document as seen from the root, or why the document
/// cannot be taken.
pub open spec fn normalized_spec_path(root: Seq<char>, spec: Seq<char>, exists: bool) -> Result<
    Seq<char>,
    SpecPathErrorView,
> {
    let path = joined_path(root, spec);
    if !exists {
        Err(SpecPathErrorView::NotFound { path })
    } else {
        match relative_to(path, root) {
            Some(rest) => Ok(rest),
            None => Err(SpecPathErrorView::OutsideRepository),
        }
    }
}

/// Brings the configured path of the document into the form that the stages
/// use: relative to the root. `exists` says whether there is a file at
/// `absolute_spec_path(root, spec)`.
pub fn normalize_spec_path(root: &str, spec: &str, exists: bool) -> (result: Result<
    String,
    SpecPathError,
>)
    ensures
        match result {
            Ok(path) => normalized_spec_path(root@, spec@, exists) == Ok::<
                Seq<char>,
                SpecPathErrorView,
            >(path@),
            Err(e) => normalized_spec_path(root@, spec@, exists) == Err::<
                Seq<char>,
                SpecPathErrorView,
            >(e@),
        },
{
    let path = absolute_spec_path(root, spec);
    if !exists {
        return Err(SpecPathError::NotFound { path });
    }
    match strip_prefix(path.as_str(), root) {
        Some(rest) => Ok(rest),
        None => Err(SpecPathError::OutsideRepository),
    }
}

/// Whether a path names a YAML file: its extension is `yaml` or `yml`, in any
/// case.
pub open spec fn names_yaml(path: Seq<char>) -> bool {
    match extension_of(path) {
        Some(ext) => lowercase_of(ext) == "yaml"@ || lowercase_of(ext) == "yml"@,
        None => false,
    }
}

/// Whether a path names a YAML file.
pub fn is_yaml(path: &str) -> (r: bool)
    ensures
        r == names_yaml(path@),
{
    match extension(path) {
        Some(ext) => {
            let lower = lowercase(ext.as_str());
            equal(lower.as_str(), "yaml") || equal(lower.as_str(), "yml")
        },
        None => false,
    }
}

/// Whether a YAML text is an OpenAPI document: a mapping with the key
/// `openapi`.
pub open spec fn holds_openapi(content: Seq<char>) -> bool {
    match yaml_keys_of(content) {
        Some(keys) => keys.contains(Some("openapi"@)),
        None => false,
    }
}

/// Whether a YAML text is an OpenAPI document.
pub fn is_openapi_spec(content: &str) -> (r: bool)
    ensures
        r == holds_openapi(content@),
{
    match read_keys(content) {
        None => false,
        Some(keys) => {
            let mut i: usize = 0;
            while i < keys.len()
                invariant
                    i <= keys.len(),
                    yaml_keys_of(content@) == Some(optional_texts(keys@)),
                    forall|j: int| 0 <= j < i ==> optional_texts(keys@)[j] != Some("openapi"@),
                decreases keys.len() - i,
            {
                let found = match &keys[i] {
                    Some(key) => equal(key.as_str(), "openapi"),
                    None => false,
                };
                if found {
                    assert(optional_texts(keys@)[i as int] == Some("openapi"@));
                    return true;
                }
                i += 1;
            }
            false
        },
    }
}

/// How deep below the root a document is looked for.
pub const DISCOVERY_DEPTH: usize = 4;

/// Whether the search for a document passes over an entry with all below it:
/// a directory below the root that belongs to version control, to the
/// workspace, to a build or to an editor.
pub open spec fn skipped_entry(depth: nat, is_dir: bool, name: Seq<char>) -> bool {
    depth != 0 && is_dir && (name == ".git"@ || name == ".oav"@ || name == "target"@ || name
        == "node_modules"@ || name == ".idea"@ || name == ".vscode"@)
}

/// Whether the search for a document passes over an entry with all below it.
pub fn should_skip_entry(depth: usize, is_dir: bool, name: &str) -> (r: bool)
    ensures
        r == skipped_entry(depth as nat, is_dir, name@),
{
    if depth == 0 || !is_dir {
        return false;
    }
    equal(name, ".git") || equal(name, ".oav") || equal(name, "target") || equal(
        name,
        "node_modules",
    ) || equal(name, ".idea") || equal(name, ".vscode")
}

/// Whether one of the lines is `entry`, white space at its ends aside.
pub open spec fn lists_entry(lines: Seq<Seq<char>>, entry: Seq<char>) -> bool {
    exists|i: int| 0 <= i < lines.len() && trimmed(#[trigger] lines[i]) == entry
}

/// Whether one of the lines is `entry`, white space at its ends aside.
fn has_entry(all: &Vec<String>, entry: &str) -> (r: bool)
    ensures
        r == lists_entry(texts(all@), entry@),
{
    let mut i: usize = 0;
    while i < all.len()
        invariant
            i <= all.len(),
            forall|j: int| 0 <= j < i ==> trimmed(#[trigger] texts(all@)[j]) != entry@,
        decreases all.len() - i,
    {
        if equal(trim(all[i].as_str()).as_str(), entry) {
            assert(trimmed(texts(all@)[i as int]) == entry@);
            return true;
        }
        i += 1;
    }
    false
}

/// The text of an ignore file with `entry` on a line of its own: unchanged
/// where it has such a line, else with the line added at the end, behind a
/// line end where the text lacks one.
pub open spec fn with_entry(content: Seq<char>, entry: Seq<char>) -> Seq<char> {
    if lists_entry(lines_of(content), entry) {
        content
    } else if content.len() > 0 && content.last() != '\n' {
        content + seq!['\n'] + entry + seq!['\n']
    } else {
        content + entry + seq!['\n']
    }
}

/// The text of an ignore file with every entry on a line of its own.
pub open spec fn with_entries(content: Seq<char>, entries: Seq<Seq<char>>) -> Seq<char>
    decreases entries.len(),
{
    if entries.len() == 0 {
        content
    } else {
        with_entry(with_entries(content, entries.drop_last()), entries.last())
    }
}

/// Adds the entry where the text lacks it, and says whether it did.
fn add_entry(content: String, entry: &str) -> (out: (String, bool))
    ensures
        out.0@ == with_entry(content@, entry@),
        out.1 == !lists_entry(lines_of(content@), entry@),
        out.1 ==> out.0@.len() > content@.len(),
{
    let all = lines(content.as_str());
    if has_entry(&all, entry) {
        return (content, false);
    }
    let v = chars_of(content.as_str());
    let mut out = content;
    if v.len() > 0 && v[v.len() - 1] != '\n' {
        out.push('\n');
    }
    out.append(entry);
    out.push('\n');
    assert(out@ =~= with_entry(v@, entry@));
    (out, true)
}

/// Adds the entries that the text of an ignore file lacks. Gives the new
/// text, or `None` where nothing had to be added.
pub fn add_gitignore_entries(content: &str, entries: &Vec<String>) -> (changed: Option<String>)
    ensures
        match changed {
            Some(text) => text@ == with_entries(content@, texts(entries@)) && text@ != content@,
            None => with_entries(content@, texts(entries@)) == content@,
        },
{
    let mut text = String::from_str(content);
    let mut changed = false;
    let mut i: usize = 0;
    assert(texts(entries@).take(0) =~= Seq::<Seq<char>>::empty());
    while i < entries.len()
        invariant
            i <= entries.len(),
            text@ == with_entries(content@, texts(entries@).take(i as int)),
            !changed ==> text@ == content@,
            changed ==> text@.len() > content@.len(),
            text@.len() >= content@.len(),
        decreases entries.len() - i,
    {
        assert(texts(entries@).take(i + 1).drop_last() =~= texts(entries@).take(i as int));
        let (next, added) = add_entry(text, entries[i].as_str());
        text = next;
        if added {
            changed = true;
        }
        i += 1;
    }
    assert(texts(entries@).take(i as int) =~= texts(entries@));
    if changed {
        Some(text)
    } else {
        None
    }
}

/// The entries that every repository ignores: the workspace, and the
/// configuration file where that is asked for.
pub open spec fn ignored_entries(ignore_config: bool) -> Seq<Seq<char>> {
    if ignore_config {
        seq![".oav/"@, ".oavc"@]
    } else {
        seq![".oav/"@]
    }
}

/// Sees to it that the ignore file names the workspace and, where asked for,
/// the configuration file. `content` is the text of the file, empty where
/// there is none. Gives the new text, or `None` where the file stays as it is.
pub fn ensure_gitignore(content: &str, ignore_config: bool) -> (changed: Option<String>)
    ensures
        match changed {
            Some(text) => text@ == with_entries(content@, ignored_entries(ignore_config)) && text@
                != content@,
            None => with_entries(content@, ignored_entries(ignore_config)) == content@,
        },
{
    let mut entries: Vec<String> = Vec::new();
    entries.push(String::from_str(".oav/"));
    if ignore_config {
        entries.push(String::from_str(".oavc"));
    }
    assert(texts(entries@) =~= ignored_entries(ignore_config));
    add_gitignore_entries(content, &entries)
}

/// The lines that are none of the entries, white space at their ends aside.
pub open spec fn lines_kept(lines: Seq<Seq<char>>, entries: Seq<Seq<char>>) -> Seq<Seq<char>>
    decreases lines.len(),
{
    if lines.len() == 0 {
        Seq::empty()
    } else {
        let before = lines_kept(lines.drop_last(), entries);
        if entries.contains(trimmed(lines.last())) {
            before
        } else {
            before.push(lines.last())
        }
    }
}

/// The text of an ignore file without the lines of the entries: the lines
/// that are kept, each with a line end.
pub open spec fn without_entries(content: Seq<char>, entries: Seq<Seq<char>>) -> Seq<char> {
    let text = joined(lines_kept(lines_of(content), entries), "\n"@);
    if text.len() == 0 {
        text
    } else {
        text.push('\n')
    }
}

/// Takes the lines of the entries out of the text of an ignore file.
pub fn remove_gitignore_entries(content: &str, entries: &Vec<String>) -> (text: String)
    ensures
        text@ == without_entries(content@, texts(entries@)),
{
    let all = lines(content);
    let mut kept: Vec<String> = Vec::new();
    let mut i: usize = 0;
    assert(texts(all@).take(0) =~= Seq::<Seq<char>>::empty());
    while i < all.len()
        invariant
            i <= all.len(),
            texts(kept@) == lines_kept(texts(all@).take(i as int), texts(entries@)),
        decreases all.len() - i,
    {
        assert(texts(all@).take(i + 1).drop_last() =~= texts(all@).take(i as int));
        let ghost before = texts(kept@);
        if !crate::text::contains_text(entries, trim(all[i].as_str()).as_str()) {
            let line = all[i].clone();
            kept.push(line);
            assert(texts(kept@) =~= before.push(line@));
        }
        i += 1;
    }
    assert(texts(all@).take(i as int) =~= texts(all@));
    let mut text = join(&kept, "\n");
    if !text.as_str().is_empty() {
        text.push('\n');
    }
    text
}

/// What the search for a document gave.
#[derive(Debug)]
pub enum Discovery {
    /// This document is taken.
    Found(String),
    /// There is none.
    Nothing,
    /// One of these is to be chosen; they are in ascending order.
    Choose(Vec<String>),
}

/// The text of a `Discovery`.
pub enum DiscoveryView {
    Found(Seq<char>),
    Nothing,
    Choose(Seq<Seq<char>>),
}

impl View for Discovery {
    type V = DiscoveryView;

    open spec fn view(&self) -> DiscoveryView {
        match self {
            Discovery::Found(path) => DiscoveryView::Found(path@),
            Discovery::Nothing => DiscoveryView::Nothing,
            Discovery::Choose(paths) => DiscoveryView::Choose(texts(paths@)),
        }
    }
}

/// Decides which document a repository validates where none is configured.
/// `has_yaml` and `has_yml` say whether the files of the two default names
/// exist under the root; `found` holds the YAML files below the root that are
/// OpenAPI documents. A default name wins, `openapi.yaml` first; else the
/// documents found are put up for choice.
pub fn discover_spec(has_yaml: bool, has_yml: bool, found: Vec<String>) -> (result: Discovery)
    ensures
        result@ == (if has_yaml {
            DiscoveryView::Found("openapi.yaml"@)
        } else if has_yml {
            DiscoveryView::Found("openapi.yml"@)
        } else if found@.len() == 0 {
            DiscoveryView::Nothing
        } else {
            DiscoveryView::Choose(in_order(texts(found@)))
        }),
{
    if has_yaml {
        Discovery::Found(String::from_str("openapi.yaml"))
    } else if has_yml {
        Discovery::Found(String::from_str("openapi.yml"))
    } else if found.len() == 0 {
        Discovery::Nothing
    } else {
        Discovery::Choose(sort(found))
    }
}

/// The lines that put the documents up for choice, numbered from one.
pub open spec fn menu_lines(candidates: Seq<Seq<char>>) -> Seq<Seq<char>> {
    seq!["No default OpenAPI spec found."@, "Select a spec to use:"@] + Seq::new(
        candidates.len(),
        |i: int| "  "@ + decimal((i + 1) as nat) + ") "@ + candidates[i],
    ) + seq!["  q) quit"@]
}

/// The lines that put the documents up for choice.
pub fn selection_menu(candidates: &Vec<String>) -> (out: Vec<String>)
    ensures
        texts(out@) == menu_lines(texts(candidates@)),
{
    let mut out: Vec<String> = Vec::new();
    out.push(String::from_str("No default OpenAPI spec found."));
    out.push(String::from_str("Select a spec to use:"));
    let ghost head = texts(out@);
    assert(head =~= seq!["No default OpenAPI spec found."@, "Select a spec to use:"@]);
    let mut i: usize = 0;
    while i < candidates.len()
        invariant
            i <= candidates.len(),
            texts(out@) == head + Seq::new(
                i as nat,
                |j: int| "  "@ + decimal((j + 1) as nat) + ") "@ + texts(candidates@)[j],
            ),
        decreases candidates.len() - i,
    {
        let mut line = String::from_str("  ");
        line.append(decimal_string(i as u64 + 1).as_str());
        line.append(") ");
        line.append(candidates[i].as_str());
        let ghost before = texts(out@);
        out.push(line);
        i += 1;
        assert(texts(out@) =~= before.push(line@));
        assert(texts(out@) =~= head + Seq::new(
            i as nat,
            |j: int| "  "@ + decimal((j + 1) as nat) + ") "@ + texts(candidates@)[j],
        ));
    }
    let ghost before = texts(out@);
    out.push(String::from_str("  q) quit"));
    assert(texts(out@) =~= before.push("  q) quit"@));
    assert(texts(out@) =~= menu_lines(texts(candidates@)));
    out
}

/// The prompt for the choice among `count` documents.
pub fn selection_prompt(count: usize) -> (out: String)
    ensures
        out@ == "Select [1-"@ + decimal(count as nat) + "] or q: "@,
{
    let mut out = String::from_str("Select [1-");
    out.append(decimal_string(count as u64).as_str());
    out.append("] or q: ");
    out
}

/// What the console says to an answer that is no choice.
pub const INVALID_SELECTION: &'static str = "Invalid selection.";

/// Whether a character is a decimal digit.
pub open spec fn is_digit(c: char) -> bool {
    '0' <= c <= '9'
}

/// The number that a sequence of decimal digits stands for.
pub open spec fn digits_value(s: Seq<char>) -> nat
    decreases s.len(),
{
    if s.len() == 0 {
        0
    } else {
        digits_value(s.drop_last()) * 10 + (s.last() as nat - '0' as nat) as nat
    }
}

/// The number that a text stands for: decimal digits, at least one, a plus
/// sign before them or not.
pub open spec fn number_of(s: Seq<char>) -> Option<nat> {
    let digits = digits_of(s);
    if digits.len() > 0 && (forall|i: int| 0 <= i < digits.len() ==> is_digit(#[trigger] digits[i])) {
        Some(digits_value(digits))
    } else {
        None
    }
}

/// An answer to the choice among documents.
#[derive(Clone, Copy, Debug, PartialEq, Eq, Structural)]
pub enum Selection {
    /// Give up.
    Quit,
    /// The document at this index.
    Chosen(usize),
    /// No answer; ask again.
    Invalid,
}

/// What an answer to the choice among `count` documents means. White space
/// at its ends counts for nothing. `q` or `Q` gives up; a number from one to
/// `count` chooses; anything else is no answer.
pub open spec fn selection_of(input: Seq<char>, count: nat) -> Selection {
    let answer = trimmed(input);
    if answer == "q"@ || answer == "Q"@ {
        Selection::Quit
    } else {
        match number_of(answer) {
            Some(n) => if 1 <= n <= count {
                Selection::Chosen((n - 1) as usize)
            } else {
                Selection::Invalid
            },
            None => Selection::Invalid,
        }
    }
}

/// More digits never stand for less.
proof fn lemma_digits_value_grows(s: Seq<char>, n: int)
    requires
        0 <= n <= s.len(),
        forall|i: int| 0 <= i < s.len() ==> is_digit(#[trigger] s[i]),
    ensures
        digits_value(s.take(n)) <= digits_value(s),
    decreases s.len() - n,
{
    if n < s.len() {
        assert(s.take(n + 1).drop_last() =~= s.take(n));
        lemma_digits_value_grows(s, n + 1);
    } else {
        assert(s.take(n) =~= s);
    }
}

/// The digits of a text that may begin with a plus sign.
pub open spec fn digits_of(s: Seq<char>) -> Seq<char> {
    if s.len() > 0 && s[0] == '+' {
        s.drop_first()
    } else {
        s
    }
}

/// Reads a number that is at most `limit`.
fn bounded_number(s: &str, limit: usize) -> (number: Option<usize>)
    ensures
        match number {
            Some(n) => number_of(s@) == Some(n as nat) && n <= limit,
            None => number_of(s@).is_none() || number_of(s@).unwrap() > limit,
        },
{
    let v = chars_of(s);
    let start: usize = if v.len() > 0 && v[0] == '+' {
        1
    } else {
        0
    };
    let ghost digits = digits_of(v@);
    assert(digits =~= v@.skip(start as int));
    if start == v.len() {
        return None;
    }
    let mut i: usize = start;
    let mut n: usize = 0;
    assert(digits.take(0) =~= Seq::<char>::empty());
    while i < v.len()
        invariant
            start <= i <= v.len(),
            start <= 1,
            start < v.len(),
            v@ == s@,
            digits == digits_of(v@),
            digits == v@.skip(start as int),
            forall|j: int| 0 <= j < i - start ==> is_digit(#[trigger] digits[j]),
            n == digits_value(digits.take(i - start)),
            n <= limit,
        decreases v.len() - i,
    {
        let c = v[i];
        if !('0' <= c && c <= '9') {
            assert(!is_digit(digits[i - start]));
            return None;
        }
        let d: u128 = (c as u32 - '0' as u32) as u128;
        let next: u128 = n as u128 * 10 + d;
        assert(digits.take(i - start + 1).drop_last() =~= digits.take(i - start));
        assert(next == digits_value(digits.take(i - start + 1)));
        if next > limit as u128 {
            proof {
                if forall|j: int| 0 <= j < digits.len() ==> is_digit(#[trigger] digits[j]) {
                    lemma_digits_value_grows(digits, i - start + 1);
                }
            }
            return None;
        }
        n = next as usize;
        i += 1;
    }
    assert(digits.take(i - start) =~= digits);
    Some(n)
}

/// Reads an answer to the choice among `count` documents.
pub fn parse_selection(input: &str, count: usize) -> (selection: Selection)
    ensures
        selection == selection_of(input@, count as nat),
{
    let answer = trim(input);
    if equal(answer.as_str(), "q") || equal(answer.as_str(), "Q") {
        return Selection::Quit;
    }
    match bounded_number(answer.as_str(), count) {
        Some(n) => if n >= 1 {
            Selection::Chosen(n - 1)
        } else {
            Selection::Invalid
        },
        None => Selection::Invalid,
    }
}

/// The directories that a run writes to: those of the reports of each stage
/// and scope, and that of the generated projects.
pub open spec fn runtime_dirs_of(root: Seq<char>) -> Seq<Seq<char>> {
    seq![
        stage_reports_of(root, "lint"@),
        joined_path(stage_reports_of(root, "generate"@), "server"@),
        joined_path(stage_reports_of(root, "generate"@), "client"@),
        joined_path(stage_reports_of(root, "compile"@), "server"@),
        joined_path(stage_reports_of(root, "compile"@), "client"@),
        joined_path(workspace_of(root), "generated"@),
    ]
}

/// The directories that a run writes to. They are made before the first
/// stage, and the ledger is emptied then.
pub fn prepare_runtime_dirs(root: &str) -> (dirs: Vec<String>)
    ensures
        texts(dirs@) == runtime_dirs_of(root@),
{
    let generate = stage_reports(root, "generate");
    let compile = stage_reports(root, "compile");
    let mut dirs: Vec<String> = Vec::new();
    dirs.push(stage_reports(root, "lint"));
    dirs.push(join_path(generate.as_str(), "server"));
    dirs.push(join_path(generate.as_str(), "client"));
    dirs.push(join_path(compile.as_str(), "server"));
    dirs.push(join_path(compile.as_str(), "client"));
    dirs.push(join_path(workspace(root).as_str(), "generated"));
    assert(texts(dirs@) =~= runtime_dirs_of(root@));
    dirs
}

/// Where the ledger of a repository is kept.
pub fn status_path(root: &str) -> (path: String)
    ensures
        path@ == joined_path(workspace_of(root@), "status.tsv"@),
{
    join_path(workspace(root).as_str(), "status.tsv")
}

/// Where the dashboard of a repository is written.
pub fn dashboard_path(root: &str) -> (path: String)
    ensures
        path@ == joined_path(joined_path(workspace_of(root@), "reports"@), "dashboard.html"@),
{
    let reports = join_path(workspace(root).as_str(), "reports");
    join_path(reports.as_str(), "dashboard.html")
}

/// Whether an asset is a script, to be made executable: its extension is
/// `sh`.
pub fn is_script(path: &str) -> (r: bool)
    ensures
        r == (extension_of(path@) == Some("sh"@)),
{
    match extension(path) {
        Some(ext) => equal(ext.as_str(), "sh"),
        None => false,
    }
}

/// The mode of a script among the assets.
pub const SCRIPT_MODE: u32 = 0o755;

/// A line of the ledger: the five fields with tabs between them and a line
/// feed at the end.
pub open spec fn ledger_line(
    stage: Seq<char>,
    scope: Seq<char>,
    target: Seq<char>,
    status: Seq<char>,
    log_path: Seq<char>,
) -> Seq<char> {
    stage + seq!['\t'] + scope + seq!['\t'] + target + seq!['\t'] + status + seq!['\t'] + log_path
        + seq!['\n']
}

/// The line that is appended to the ledger for one task.
pub fn append_status(stage: &str, scope: &str, target: &str, status: &str, log_path: &str) -> (line:
    String)
    ensures
        line@ == ledger_line(stage@, scope@, target@, status@, log_path@),
{
    let mut line = String::from_str(stage);
    line.push('\t');
    line.append(scope);
    line.push('\t');
    line.append(target);
    line.push('\t');
    line.append(status);
    line.push('\t');
    line.append(log_path);
    line.push('\n');
    assert(line@ =~= ledger_line(stage@, scope@, target@, status@, log_path@));
    line
}

/// What a log starts with: the command line and an empty line.
pub open spec fn log_header_of(command_line: Seq<char>) -> Seq<char> {
    command_line + seq!['\n', '\n']
}

/// What is written to a log before the output of its task.
pub fn write_log_header(command_line: &str) -> (header: String)
    ensures
        header@ == log_header_of(command_line@),
{
    let mut header = String::from_str(command_line);
    header.push('\n');
    header.push('\n');
    assert(header@ =~= log_header_of(command_line@));
    header
}

/// The line that is appended to an error log.
pub fn append_error(message: &str) -> (line: String)
    ensures
        line@ == message@.push('\n'),
{
    let mut line = String::from_str(message);
    line.push('\n');
    line
}

/// The components among two runs of pieces are those of the first run, then
/// those of the second.
proof fn lemma_components_among_concat(a: Seq<Seq<char>>, b: Seq<Seq<char>>)
    ensures
        components_among(a + b) == components_among(a) + components_among(b),
    decreases b.len(),
{
    if b.len() == 0 {
        assert(a + b =~= a);
        assert(components_among(a) + components_among(b) =~= components_among(a));
    } else {
        lemma_components_among_concat(a, b.drop_last());
        assert((a + b).drop_last() =~= a + b.drop_last());
        assert(components_among(a + b) =~= components_among(a) + components_among(b));
    }
}

/// A separator at the end of a path adds no component.
proof fn lemma_trailing_separator(path: Seq<char>)
    ensures
        components_of(path.push('/')) == components_of(path),
{
    lemma_split_separator(path, '/');
    let pieces = split_on(path, '/');
    assert(pieces.push(Seq::empty()).drop_last() =~= pieces);
}

/// The components of a path under a base are those of the base, then those of
/// the path.
pub proof fn lemma_join_adds_components(base: Seq<char>, rel: Seq<char>)
    requires
        !is_absolute(rel),
    ensures
        components_of(joined_path(base, rel)) == components_of(base) + components_of(rel),
{
    let none = Seq::<char>::empty();
    let rest = split_on(rel, '/');
    lemma_split_nonempty(rel, '/');
    assert(seq![rest[0]] + rest.drop_first() =~= rest);
    if base.len() == 0 {
        assert(base + rel =~= rel);
        assert(split_on(base, '/') =~= seq![none]);
        assert(seq![none].drop_last() =~= Seq::<Seq<char>>::empty());
        assert(components_among(Seq::<Seq<char>>::empty()) =~= Seq::<Seq<char>>::empty());
        assert(components_among(seq![none]) =~= Seq::<Seq<char>>::empty());
        assert(components_of(base) =~= Seq::<Seq<char>>::empty());
        assert(components_of(base) + components_of(rel) =~= components_of(rel));
    } else {
        let stem = if base.last() == '/' {
            base.drop_last()
        } else {
            base
        };
        assert(joined_path(base, rel) =~= stem.push('/') + rel);
        if base.last() == '/' {
            assert(stem.push('/') =~= base);
        }
        lemma_trailing_separator(stem);
        lemma_split_separator(stem, '/');
        lemma_split_concat(stem.push('/'), rel, '/');
        let front = split_on(stem, '/');
        assert(front.push(none).drop_last() =~= front);
        assert(none + rest[0] =~= rest[0]);
        assert(split_on(stem.push('/') + rel, '/') =~= front + rest);
        lemma_components_among_concat(front, rest);
    }
}

/// What lies under a base is found there: a relative path joined to a base
/// is, as seen from the base, the path again, component by component.
pub proof fn lemma_joined_path_is_under_base(base: Seq<char>, rel: Seq<char>)
    requires
        !is_absolute(rel),
    ensures
        relative_to(joined_path(base, rel), base) == Some(joined(components_of(rel), "/"@)),
{
    lemma_join_adds_components(base, rel);
    let under = components_of(base);
    let whole = components_of(joined_path(base, rel));
    assert(whole.subrange(0, under.len() as int) =~= under);
    assert(whole.skip(under.len() as int) =~= components_of(rel));
    if base.len() > 0 {
        assert(joined_path(base, rel)[0] == base[0]);
    }
}

/// A document that is configured by a relative path and exists is taken, and
/// comes back as seen from the root.
pub proof fn lemma_spec_under_root_is_taken(root: Seq<char>, spec: Seq<char>)
    requires
        !is_absolute(spec),
    ensures
        normalized_spec_path(root, spec, true) == Ok::<Seq<char>, SpecPathErrorView>(
            joined(components_of(spec), "/"@),
        ),
{
    lemma_joined_path_is_under_base(root, spec);
}

} // verus!
