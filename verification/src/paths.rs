//! Windows paths, as text.
//!
//! A path has a root, which may be empty, and components behind it. Both slashes
//! separate components; repeated separators and components of a single dot do not
//! count, except for a dot at the front of a relative path. A verbatim path, which
//! begins with `\\?\`, is taken more literally: only the backslash separates its
//! components, and a single dot is one of them.

use vstd::prelude::*;

use crate::candidates::texts_view;
use crate::text::{characters, same_text};

verus! {

/// Whether a character separates components.
pub open spec fn is_separator(c: char) -> bool {
    c == '\\' || c == '/'
}

/// Whether a character can name a drive.
pub open spec fn is_drive_letter(c: char) -> bool {
    'a' <= c <= 'z' || 'A' <= c <= 'Z'
}

/// Whether the path is to be taken literally.
pub open spec fn is_verbatim(path: Seq<char>) -> bool {
    path.len() >= 4 && path[0] == '\\' && path[1] == '\\' && path[2] == '?' && path[3] == '\\'
}

/// Whether two components are separated at a position of the path.
pub open spec fn separated_at(path: Seq<char>, i: int) -> bool {
    path[i] == '\\' || (path[i] == '/' && !is_verbatim(path))
}

/// The end of the component that begins at `from`.
pub open spec fn component_end(path: Seq<char>, from: int) -> int
    decreases path.len() - from,
{
    if from >= path.len() || separated_at(path, from) {
        from
    } else {
        component_end(path, from + 1)
    }
}

/// Whether the path begins with a drive.
pub open spec fn has_drive(path: Seq<char>) -> bool {
    path.len() >= 2 && is_drive_letter(path[0]) && path[1] == ':'
}

/// Whether the path begins with the name of a device.
pub open spec fn has_device(path: Seq<char>) -> bool {
    path.len() >= 4 && is_separator(path[0]) && is_separator(path[1]) && path[2] == '.'
        && is_separator(path[3])
}

/// Whether the path begins with two separators, a server and a share.
pub open spec fn has_share(path: Seq<char>) -> bool {
    &&& path.len() >= 2 && is_separator(path[0]) && is_separator(path[1])
    &&& 2 < component_end(path, 2) < path.len()
    &&& component_end(path, 2) + 1 < component_end(path, component_end(path, 2) + 1)
}

/// Whether a verbatim path goes on with a server.
pub open spec fn has_verbatim_server(path: Seq<char>) -> bool {
    path.len() >= 8 && path[4] == 'U' && path[5] == 'N' && path[6] == 'C' && is_separator(path[7])
}

/// Whether a verbatim path goes on with a drive and nothing else in its place.
pub open spec fn has_verbatim_drive(path: Seq<char>) -> bool {
    path.len() >= 6 && is_drive_letter(path[4]) && path[5] == ':' && (path.len() == 6
        || is_separator(path[6]))
}

/// The length of the prefix of a verbatim path: a server and its share, where
/// there is one, a drive, or the first component.
pub open spec fn verbatim_prefix_len(path: Seq<char>) -> int {
    if has_verbatim_server(path) {
        let server_end = component_end(path, 8);
        let share_end = component_end(path, server_end + 1);
        if server_end + 1 < share_end {
            share_end
        } else {
            server_end
        }
    } else if has_verbatim_drive(path) {
        6
    } else {
        component_end(path, 4)
    }
}

/// The length of the prefix: the drive, device or share that the path begins with.
pub open spec fn prefix_len(path: Seq<char>) -> int {
    if is_verbatim(path) {
        verbatim_prefix_len(path)
    } else if has_device(path) {
        component_end(path, 4)
    } else if has_share(path) {
        component_end(path, component_end(path, 2) + 1)
    } else if has_drive(path) {
        2
    } else {
        0
    }
}

/// The length of the root: the prefix, and a separator behind it.
pub open spec fn root_len(path: Seq<char>) -> int {
    let prefix = prefix_len(path);
    if prefix < path.len() && is_separator(path[prefix]) {
        prefix + 1
    } else {
        prefix
    }
}

/// The end of the last component among the first `end` characters, where the
/// root takes the first `root`.
pub open spec fn trimmed_end(path: Seq<char>, root: int, end: int) -> int
    decreases end,
{
    if end <= root || end <= 0 {
        root
    } else if separated_at(path, end - 1) {
        trimmed_end(path, root, end - 1)
    } else if path[end - 1] == '.' && !is_verbatim(path) && end >= 2 && separated_at(
        path,
        end - 2,
    ) {
        trimmed_end(path, root, end - 1)
    } else {
        end
    }
}

/// The start of the component that ends at `end`.
pub open spec fn component_start(path: Seq<char>, root: int, end: int) -> int
    decreases end,
{
    if end <= root || end <= 0 || separated_at(path, end - 1) {
        end
    } else {
        component_start(path, root, end - 1)
    }
}

/// The path without its last component, where it has one.
pub open spec fn parent_of(path: Seq<char>) -> Option<Seq<char>> {
    let root = root_len(path);
    let end = trimmed_end(path, root, path.len() as int);
    if end == root {
        None
    } else {
        Some(path.take(trimmed_end(path, root, component_start(path, root, end))))
    }
}

/// Where the name of the file is: its start and end.
pub open spec fn file_name_span(path: Seq<char>) -> Option<(int, int)> {
    let root = root_len(path);
    let end = trimmed_end(path, root, path.len() as int);
    let start = component_start(path, root, end);
    let name = path.subrange(start, end);
    if end == root || name == seq!['.', '.'] || name == seq!['.'] {
        None
    } else {
        Some((start, end))
    }
}

/// The position of the last dot of `name`, or -1.
pub open spec fn last_dot(name: Seq<char>) -> int
    decreases name.len(),
{
    if name.len() == 0 {
        -1
    } else if name.last() == '.' {
        name.len() - 1
    } else {
        last_dot(name.drop_last())
    }
}

/// A file name without its extension. A dot at the front begins no extension.
pub open spec fn stem_of(name: Seq<char>) -> Seq<char> {
    if last_dot(name) <= 0 {
        name
    } else {
        name.take(last_dot(name))
    }
}

/// The extension of a file name.
pub open spec fn extension_of(name: Seq<char>) -> Option<Seq<char>> {
    if last_dot(name) <= 0 {
        None
    } else {
        Some(name.skip(last_dot(name) + 1))
    }
}

/// The components among the first `end` characters.
pub open spec fn component_names(path: Seq<char>, root: int, end: int) -> Seq<Seq<char>>
    decreases end,
{
    let last_end = trimmed_end(path, root, end);
    let last_start = component_start(path, root, last_end);
    if root < last_end && 0 <= last_start < end {
        component_names(path, root, last_start).push(path.subrange(last_start, last_end))
    } else {
        Seq::empty()
    }
}

/// Components with one separator between them.
pub open spec fn separated(names: Seq<Seq<char>>) -> Seq<char>
    decreases names.len(),
{
    if names.len() == 0 {
        Seq::empty()
    } else if names.len() == 1 {
        names[0]
    } else {
        separated(names.drop_last()) + seq!['\\'] + names.last()
    }
}

/// A path with a name behind it, and a separator between them where one is needed:
/// not behind another one, nor behind a bare drive.
pub open spec fn appended_path(directory: Seq<char>, name: Seq<char>) -> Seq<char> {
    if directory.len() == 0 || is_separator(directory.last()) || (directory.len() == 2
        && has_drive(directory)) {
        directory + name
    } else {
        directory + seq!['\\'] + name
    }
}

/// A verbatim path with one separator behind its prefix and behind each component.
pub open spec fn verbatim_directory(path: Seq<char>) -> Seq<char> {
    let names = component_names(path, root_len(path), path.len() as int);
    if names.len() == 0 {
        path.take(prefix_len(path)) + seq!['\\']
    } else {
        path.take(prefix_len(path)) + seq!['\\'] + separated(names) + seq!['\\']
    }
}

/// A path with one more component. What separates the components of a verbatim
/// path is made a single backslash on the way.
pub open spec fn joined_path(directory: Seq<char>, name: Seq<char>) -> Seq<char> {
    if is_verbatim(directory) && name.len() > 0 {
        verbatim_directory(directory) + name
    } else {
        appended_path(directory, name)
    }
}

/// What a path begins with, as two paths are compared by it.
pub enum PathPrefix<T = String> {
    Bare,
    Drive(char),
    Share { server: T, share: T },
    Device(T),
    VerbatimServer { server: T, share: T },
    VerbatimDrive(char),
    Verbatim(T),
}

impl View for PathPrefix<String> {
    type V = PathPrefix<Seq<char>>;

    open spec fn view(&self) -> PathPrefix<Seq<char>> {
        match self {
            PathPrefix::Bare => PathPrefix::Bare,
            PathPrefix::Drive(letter) => PathPrefix::Drive(*letter),
            PathPrefix::Share { server, share } => PathPrefix::Share {
                server: server@,
                share: share@,
            },
            PathPrefix::Device(name) => PathPrefix::Device(name@),
            PathPrefix::VerbatimServer { server, share } => PathPrefix::VerbatimServer {
                server: server@,
                share: share@,
            },
            PathPrefix::VerbatimDrive(letter) => PathPrefix::VerbatimDrive(*letter),
            PathPrefix::Verbatim(name) => PathPrefix::Verbatim(name@),
        }
    }
}

/// A drive letter in upper case.
pub open spec fn upper_letter(letter: char) -> char {
    if 'a' <= letter <= 'z' {
        (letter as u32 - 'a' as u32 + 'A' as u32) as char
    } else {
        letter
    }
}

/// What a path begins with. The case of a drive does not count, nor do the
/// separators.
pub open spec fn prefix_of(path: Seq<char>) -> PathPrefix<Seq<char>> {
    if is_verbatim(path) {
        if has_verbatim_server(path) {
            let server_end = component_end(path, 8);
            let share_end = component_end(path, server_end + 1);
            PathPrefix::VerbatimServer {
                server: path.subrange(8, server_end),
                share: if server_end + 1 < share_end {
                    path.subrange(server_end + 1, share_end)
                } else {
                    Seq::empty()
                },
            }
        } else if has_verbatim_drive(path) {
            PathPrefix::VerbatimDrive(upper_letter(path[4]))
        } else {
            PathPrefix::Verbatim(path.subrange(4, component_end(path, 4)))
        }
    } else if has_device(path) {
        PathPrefix::Device(path.subrange(4, component_end(path, 4)))
    } else if has_share(path) {
        let server_end = component_end(path, 2);
        PathPrefix::Share {
            server: path.subrange(2, server_end),
            share: path.subrange(server_end + 1, component_end(path, server_end + 1)),
        }
    } else if has_drive(path) {
        PathPrefix::Drive(upper_letter(path[0]))
    } else {
        PathPrefix::Bare
    }
}

/// Whether the components of a path begin at a root. A device and a share have one
/// even where no separator follows them.
pub open spec fn is_rooted(path: Seq<char>) -> bool {
    root_len(path) > prefix_len(path) || prefix_of(path) is Device || prefix_of(path) is Share
}

/// Whether two paths are the same, component by component.
pub open spec fn is_same_path(left: Seq<char>, right: Seq<char>) -> bool {
    &&& prefix_of(left) == prefix_of(right)
    &&& is_rooted(left) == is_rooted(right)
    &&& component_names(left, root_len(left), left.len() as int) == component_names(
        right,
        root_len(right),
        right.len() as int,
    )
}

/// Whether joining a name to a directory leaves the directory as it is, and the
/// prefix, which takes the first `prefix` characters.
pub open spec fn keeps_directory(directory: Seq<char>, name: Seq<char>, prefix: int) -> bool {
    let joined = joined_path(directory, name);
    joined == appended_path(directory, name) && prefix_len(joined) == prefix
}

fn separates(c: char) -> (separates: bool)
    ensures
        separates == is_separator(c),
{
    c == '\\' || c == '/'
}

fn is_literal(path: &Vec<char>) -> (literal: bool)
    ensures
        literal == is_verbatim(path@),
{
    path.len() >= 4 && path[0] == '\\' && path[1] == '\\' && path[2] == '?' && path[3] == '\\'
}

fn separates_at(path: &Vec<char>, i: usize) -> (separates: bool)
    requires
        i < path.len(),
    ensures
        separates == separated_at(path@, i as int),
{
    path[i] == '\\' || (path[i] == '/' && !is_literal(path))
}

fn names_drive(letter: char) -> (drive: bool)
    ensures
        drive == is_drive_letter(letter),
{
    ('a' <= letter && letter <= 'z') || ('A' <= letter && letter <= 'Z')
}

fn begins_with_drive(path: &Vec<char>) -> (drive: bool)
    ensures
        drive == has_drive(path@),
{
    if path.len() < 2 {
        return false;
    }
    names_drive(path[0]) && path[1] == ':'
}

fn find_component_end(path: &Vec<char>, from: usize) -> (end: usize)
    requires
        from <= path.len(),
    ensures
        end as int == component_end(path@, from as int),
        from <= end <= path.len(),
    decreases path.len() - from,
{
    if from >= path.len() || separates_at(path, from) {
        from
    } else {
        find_component_end(path, from + 1)
    }
}

fn find_verbatim_prefix_len(path: &Vec<char>) -> (len: usize)
    requires
        path.len() >= 4,
    ensures
        len as int == verbatim_prefix_len(path@),
        len <= path.len(),
{
    if path.len() >= 8 && path[4] == 'U' && path[5] == 'N' && path[6] == 'C' && separates(path[7]) {
        let server_end: usize = find_component_end(path, 8);
        if server_end < path.len() {
            let share_end: usize = find_component_end(path, server_end + 1);
            if server_end + 1 < share_end {
                return share_end;
            }
        }
        return server_end;
    }
    if path.len() >= 6 && names_drive(path[4]) && path[5] == ':' && (path.len() == 6 || separates(
        path[6],
    )) {
        return 6;
    }
    find_component_end(path, 4)
}

fn find_prefix_len(path: &Vec<char>) -> (len: usize)
    ensures
        len as int == prefix_len(path@),
        len <= path.len(),
{
    if is_literal(path) {
        return find_verbatim_prefix_len(path);
    }
    if path.len() >= 4 && separates(path[0]) && separates(path[1]) && path[2] == '.' && separates(
        path[3],
    ) {
        return find_component_end(path, 4);
    }
    if path.len() >= 2 && separates(path[0]) && separates(path[1]) {
        let server_end: usize = find_component_end(path, 2);
        if 2 < server_end && server_end < path.len() {
            let share_end: usize = find_component_end(path, server_end + 1);
            if server_end + 1 < share_end {
                return share_end;
            }
        }
    }
    if begins_with_drive(path) {
        2
    } else {
        0
    }
}

fn find_root_len(path: &Vec<char>) -> (len: usize)
    ensures
        len as int == root_len(path@),
        len <= path.len(),
{
    let prefix: usize = find_prefix_len(path);
    if prefix < path.len() && separates(path[prefix]) {
        prefix + 1
    } else {
        prefix
    }
}

fn find_trimmed_end(path: &Vec<char>, root: usize, end: usize) -> (trimmed: usize)
    requires
        root <= path.len(),
        end <= path.len(),
    ensures
        trimmed as int == trimmed_end(path@, root as int, end as int),
        root <= trimmed <= path.len(),
        root < end ==> trimmed <= end,
        root < trimmed ==> !separated_at(path@, trimmed - 1),
    decreases end,
{
    if end <= root || end == 0 {
        root
    } else if separates_at(path, end - 1) {
        find_trimmed_end(path, root, end - 1)
    } else if path[end - 1] == '.' && !is_literal(path) && end >= 2 && separates_at(
        path,
        end - 2,
    ) {
        find_trimmed_end(path, root, end - 1)
    } else {
        end
    }
}

fn find_component_start(path: &Vec<char>, root: usize, end: usize) -> (start: usize)
    requires
        end <= path.len(),
    ensures
        start as int == component_start(path@, root as int, end as int),
        start <= end,
        root <= end ==> root <= start,
        root < end && !separated_at(path@, end - 1) ==> start < end,
    decreases end,
{
    if end <= root || end == 0 || separates_at(path, end - 1) {
        end
    } else {
        find_component_start(path, root, end - 1)
    }
}

fn text_between(path: &Vec<char>, start: usize, end: usize) -> (text: String)
    requires
        start <= end <= path.len(),
    ensures
        text@ == path@.subrange(start as int, end as int),
{
    let mut text = String::new();
    for i in start..end
        invariant
            start <= end <= path.len(),
            text@ == path@.subrange(start as int, i as int),
    {
        text.push(path[i]);
        assert(text@ =~= path@.subrange(start as int, i + 1));
    }
    text
}

fn upper(letter: char) -> (upper: char)
    ensures
        upper == upper_letter(letter),
{
    if 'a' <= letter && letter <= 'z' {
        (letter as u8 - 'a' as u8 + 'A' as u8) as char
    } else {
        letter
    }
}

fn read_verbatim_prefix(path: &Vec<char>) -> (prefix: PathPrefix)
    requires
        is_verbatim(path@),
    ensures
        prefix@ == prefix_of(path@),
{
    if path.len() >= 8 && path[4] == 'U' && path[5] == 'N' && path[6] == 'C' && separates(path[7]) {
        let server_end: usize = find_component_end(path, 8);
        let server = text_between(path, 8, server_end);
        if server_end < path.len() {
            let share_end: usize = find_component_end(path, server_end + 1);
            let share = text_between(path, server_end + 1, share_end);
            assert(server_end + 1 >= share_end ==> share@ =~= Seq::empty());
            return PathPrefix::VerbatimServer { server, share };
        }
        let share = String::new();
        assert(share@ =~= Seq::empty());
        return PathPrefix::VerbatimServer { server, share };
    }
    if path.len() >= 6 && names_drive(path[4]) && path[5] == ':' && (path.len() == 6 || separates(
        path[6],
    )) {
        return PathPrefix::VerbatimDrive(upper(path[4]));
    }
    let end: usize = find_component_end(path, 4);
    PathPrefix::Verbatim(text_between(path, 4, end))
}

fn read_prefix(path: &Vec<char>) -> (prefix: PathPrefix)
    ensures
        prefix@ == prefix_of(path@),
{
    if is_literal(path) {
        return read_verbatim_prefix(path);
    }
    if path.len() >= 4 && separates(path[0]) && separates(path[1]) && path[2] == '.' && separates(
        path[3],
    ) {
        let end: usize = find_component_end(path, 4);
        return PathPrefix::Device(text_between(path, 4, end));
    }
    if path.len() >= 2 && separates(path[0]) && separates(path[1]) {
        let server_end: usize = find_component_end(path, 2);
        if 2 < server_end && server_end < path.len() {
            let share_end: usize = find_component_end(path, server_end + 1);
            if server_end + 1 < share_end {
                return PathPrefix::Share {
                    server: text_between(path, 2, server_end),
                    share: text_between(path, server_end + 1, share_end),
                };
            }
        }
    }
    if begins_with_drive(path) {
        PathPrefix::Drive(upper(path[0]))
    } else {
        PathPrefix::Bare
    }
}

fn prefixes_agree(left: &PathPrefix, right: &PathPrefix) -> (agree: bool)
    ensures
        agree == (left@ == right@),
{
    match (left, right) {
        (PathPrefix::Bare, PathPrefix::Bare) => true,
        (PathPrefix::Drive(left), PathPrefix::Drive(right)) => *left == *right,
        (
            PathPrefix::Share { server, share },
            PathPrefix::Share { server: other_server, share: other_share },
        ) => same_text(server.as_str(), other_server.as_str()) && same_text(
            share.as_str(),
            other_share.as_str(),
        ),
        (PathPrefix::Device(left), PathPrefix::Device(right)) => {
            same_text(left.as_str(), right.as_str())
        },
        (
            PathPrefix::VerbatimServer { server, share },
            PathPrefix::VerbatimServer { server: other_server, share: other_share },
        ) => same_text(server.as_str(), other_server.as_str()) && same_text(
            share.as_str(),
            other_share.as_str(),
        ),
        (PathPrefix::VerbatimDrive(left), PathPrefix::VerbatimDrive(right)) => *left == *right,
        (PathPrefix::Verbatim(left), PathPrefix::Verbatim(right)) => {
            same_text(left.as_str(), right.as_str())
        },
        _ => false,
    }
}

fn read_names(path: &Vec<char>, root: usize, end: usize) -> (names: Vec<String>)
    requires
        root <= path.len(),
        end <= path.len(),
    ensures
        texts_view(names@) == component_names(path@, root as int, end as int),
    decreases end,
{
    let last_end: usize = find_trimmed_end(path, root, end);
    if last_end <= root {
        let names: Vec<String> = Vec::new();
        assert(texts_view(names@) =~= Seq::empty());
        return names;
    }
    let last_start: usize = find_component_start(path, root, last_end);
    let last = text_between(path, last_start, last_end);
    let mut names = read_names(path, root, last_start);
    let ghost front = texts_view(names@);
    names.push(last);
    assert(texts_view(names@) =~= front.push(last@));
    names
}

fn names_agree(left: &Vec<String>, right: &Vec<String>) -> (agree: bool)
    ensures
        agree == (texts_view(left@) == texts_view(right@)),
{
    if left.len() != right.len() {
        assert(texts_view(left@).len() != texts_view(right@).len());
        return false;
    }
    for i in 0..left.len()
        invariant
            left.len() == right.len(),
            forall|j: int| 0 <= j < i ==> left@[j]@ == right@[j]@,
    {
        if !same_text(left[i].as_str(), right[i].as_str()) {
            assert(texts_view(left@)[i as int] != texts_view(right@)[i as int]);
            return false;
        }
    }
    assert(texts_view(left@) =~= texts_view(right@));
    true
}

/// Tells whether two paths are the same, component by component.
pub fn same_path(left: &str, right: &str) -> (same: bool)
    ensures
        same == is_same_path(left@, right@),
{
    let left = characters(left);
    let right = characters(right);
    let left_prefix = read_prefix(&left);
    let right_prefix = read_prefix(&right);
    let left_root: usize = find_root_len(&left);
    let right_root: usize = find_root_len(&right);
    let left_rooted = left_root > find_prefix_len(&left) || matches!(
        left_prefix,
        PathPrefix::Device(_) | PathPrefix::Share { .. }
    );
    let right_rooted = right_root > find_prefix_len(&right) || matches!(
        right_prefix,
        PathPrefix::Device(_) | PathPrefix::Share { .. }
    );
    let left_names = read_names(&left, left_root, left.len());
    let right_names = read_names(&right, right_root, right.len());
    prefixes_agree(&left_prefix, &right_prefix) && left_rooted == right_rooted && names_agree(
        &left_names,
        &right_names,
    )
}

/// Returns the path without its last component, where it has one.
pub fn parent_directory(path: &str) -> (parent: Option<String>)
    ensures
        match parent {
            Some(parent) => parent_of(path@) == Some(parent@),
            None => parent_of(path@) is None,
        },
{
    let chars = characters(path);
    let root: usize = find_root_len(&chars);
    let end: usize = find_trimmed_end(&chars, root, chars.len());
    if end == root {
        return None;
    }
    let start: usize = find_component_start(&chars, root, end);
    let parent_end: usize = find_trimmed_end(&chars, root, start);
    let parent = text_between(&chars, 0, parent_end);
    assert(parent@ =~= path@.take(parent_end as int));
    Some(parent)
}

fn find_file_name(path: &Vec<char>) -> (span: Option<(usize, usize)>)
    ensures
        match span {
            Some((start, end)) => {
                &&& file_name_span(path@) == Some((start as int, end as int))
                &&& start <= end <= path.len()
            },
            None => file_name_span(path@) is None,
        },
{
    let root: usize = find_root_len(path);
    let end: usize = find_trimmed_end(path, root, path.len());
    if end == root {
        return None;
    }
    let start: usize = find_component_start(path, root, end);
    let ghost name = path@.subrange(start as int, end as int);
    if end - start == 2 && path[start] == '.' && path[start + 1] == '.' {
        assert(name =~= seq!['.', '.']);
        return None;
    }
    if end - start == 1 && path[start] == '.' {
        assert(name =~= seq!['.']);
        return None;
    }
    proof {
        if name == seq!['.', '.'] {
            assert(name[0] == path@[start as int] && name[1] == path@[start + 1]);
        }
        if name == seq!['.'] {
            assert(name[0] == path@[start as int]);
        }
    }
    Some((start, end))
}

fn find_last_dot(chars: &Vec<char>, start: usize, end: usize) -> (dot: Option<usize>)
    requires
        start <= end <= chars.len(),
    ensures
        match dot {
            Some(dot) => start <= dot < end && last_dot(chars@.subrange(start as int, end as int))
                == dot - start,
            None => last_dot(chars@.subrange(start as int, end as int)) == -1,
        },
    decreases end,
{
    let ghost name = chars@.subrange(start as int, end as int);
    if start == end {
        return None;
    }
    assert(name.drop_last() =~= chars@.subrange(start as int, end - 1));
    if chars[end - 1] == '.' {
        Some(end - 1)
    } else {
        find_last_dot(chars, start, end - 1)
    }
}

/// The name of a file in its two parts.
#[derive(Debug)]
pub struct FileName {
    pub stem: String,
    pub extension: Option<String>,
}

/// Returns the name of the file that a path leads to, in its two parts.
pub fn file_name(path: &str) -> (name: Option<FileName>)
    ensures
        match (name, file_name_span(path@)) {
            (Some(name), Some((start, end))) => {
                let text = path@.subrange(start, end);
                &&& name.stem@ == stem_of(text)
                &&& match name.extension {
                    Some(extension) => extension_of(text) == Some(extension@),
                    None => extension_of(text) is None,
                }
            },
            (None, None) => true,
            _ => false,
        },
{
    let chars = characters(path);
    let (start, end) = match find_file_name(&chars) {
        Some(span) => span,
        None => return None,
    };
    let ghost text = path@.subrange(start as int, end as int);
    let dot = find_last_dot(&chars, start, end);
    if let Some(dot) = dot {
        if dot > start {
            let stem = text_between(&chars, start, dot);
            let extension = text_between(&chars, dot + 1, end);
            assert(stem@ =~= text.take(dot - start));
            assert(extension@ =~= text.skip(dot - start + 1));
            return Some(FileName { stem, extension: Some(extension) });
        }
    }
    Some(FileName { stem: text_between(&chars, start, end), extension: None })
}

/// The path with another extension, or with none where that is empty, where it
/// leads to a file.
pub open spec fn with_extension_of(path: Seq<char>, extension: Seq<char>) -> Seq<char> {
    match file_name_span(path) {
        Some((start, end)) => {
            let stem = path.take(start + stem_of(path.subrange(start, end)).len());
            if extension.len() == 0 {
                stem
            } else {
                stem + seq!['.'] + extension
            }
        },
        None => path,
    }
}

/// Returns the path with another extension, where it leads to a file.
pub fn with_extension(path: &str, extension: &str) -> (changed: String)
    ensures
        changed@ == with_extension_of(path@, extension@),
{
    let chars = characters(path);
    let (start, end) = match find_file_name(&chars) {
        Some(span) => span,
        None => return path.to_owned(),
    };
    let stem_end: usize = match find_last_dot(&chars, start, end) {
        Some(dot) => if dot > start {
            dot
        } else {
            end
        },
        None => end,
    };
    let mut changed = text_between(&chars, 0, stem_end);
    assert(changed@ =~= path@.take(stem_end as int));
    if !extension.is_empty() {
        changed.push('.');
        changed.append(extension);
    }
    assert(changed@ =~= with_extension_of(path@, extension@));
    changed
}

fn write_names(names: &Vec<String>) -> (text: String)
    ensures
        text@ == separated(texts_view(names@)),
{
    let mut text = String::new();
    let ghost all = texts_view(names@);
    assert(all.take(0) =~= Seq::empty());
    assert(text@ =~= separated(all.take(0)));
    for i in 0..names.len()
        invariant
            all == texts_view(names@),
            text@ == separated(all.take(i as int)),
    {
        if i > 0 {
            text.push('\\');
        }
        text.append(names[i].as_str());
        assert(all.take(i + 1).drop_last() =~= all.take(i as int));
        assert(text@ =~= separated(all.take(i + 1)));
    }
    assert(all.take(names@.len() as int) =~= all);
    text
}

fn write_verbatim_directory(path: &Vec<char>) -> (directory: String)
    ensures
        directory@ == verbatim_directory(path@),
{
    let prefix: usize = find_prefix_len(path);
    let names = read_names(path, find_root_len(path), path.len());
    let mut directory = text_between(path, 0, prefix);
    assert(directory@ =~= path@.take(prefix as int));
    directory.push('\\');
    if names.len() > 0 {
        directory.append(write_names(&names).as_str());
        directory.push('\\');
    }
    assert(directory@ =~= verbatim_directory(path@));
    directory
}

/// Returns a path with one more component.
pub fn join_path(directory: &str, name: &str) -> (path: String)
    ensures
        path@ == joined_path(directory@, name@),
{
    let chars = characters(directory);
    if is_literal(&chars) && !name.is_empty() {
        let mut path = write_verbatim_directory(&chars);
        path.append(name);
        return path;
    }
    let mut path = directory.to_owned();
    if chars.len() > 0 && !separates(chars[chars.len() - 1]) && !(chars.len() == 2
        && begins_with_drive(&chars)) {
        path.push('\\');
        assert(path@ =~= directory@ + seq!['\\']);
    }
    path.append(name);
    path
}

proof fn component_ends_behind_start(path: Seq<char>, from: int)
    requires
        0 <= from <= path.len(),
    ensures
        from <= component_end(path, from) <= path.len(),
        component_end(path, from) < path.len() ==> separated_at(path, component_end(path, from)),
    decreases path.len() - from,
{
    if from < path.len() && !separated_at(path, from) {
        component_ends_behind_start(path, from + 1);
    }
}

pub(crate) proof fn trimmed_ends_are_ends(path: Seq<char>, root: int, end: int)
    requires
        0 <= root,
        end <= path.len(),
    ensures
        root <= trimmed_end(path, root, end),
        root < end ==> trimmed_end(path, root, end) <= end,
        trimmed_end(path, root, end) > root ==> {
            let trimmed = trimmed_end(path, root, end);
            &&& trimmed_end(path, root, trimmed) == trimmed
            &&& !separated_at(path, trimmed - 1)
        },
    decreases end,
{
    if !(end <= root || end <= 0) && (separated_at(path, end - 1) || (path[end - 1] == '.'
        && !is_verbatim(path) && end >= 2 && separated_at(path, end - 2))) {
        trimmed_ends_are_ends(path, root, end - 1);
    }
}

pub(crate) proof fn a_name_starts_behind_its_directory(path: Seq<char>, root: int, start: int, end: int)
    requires
        0 <= root <= start < end <= path.len(),
        start == root || separated_at(path, start - 1),
        forall|i: int| start <= i < end ==> !is_separator(#[trigger] path[i]),
    ensures
        component_start(path, root, end) == start,
    decreases end,
{
    reveal_with_fuel(component_start, 2);
    assert(!is_separator(path[end - 1]));
    if end - 1 > start {
        a_name_starts_behind_its_directory(path, root, start, end - 1);
    }
}

pub(crate) proof fn component_start_bounds(path: Seq<char>, root: int, end: int)
    requires
        0 <= root,
        end <= path.len(),
    ensures
        component_start(path, root, end) <= end,
        root <= end ==> root <= component_start(path, root, end),
    decreases end,
{
    if !(end <= root || end <= 0 || separated_at(path, end - 1)) {
        component_start_bounds(path, root, end - 1);
    }
}

proof fn trimmed_alike(left: Seq<char>, right: Seq<char>, root: int, end: int)
    requires
        0 <= root,
        end <= left.len(),
        end <= right.len(),
        forall|i: int| 0 <= i < end ==> left[i] == right[i],
        is_verbatim(left) == is_verbatim(right),
    ensures
        trimmed_end(left, root, end) == trimmed_end(right, root, end),
    decreases end,
{
    if !(end <= root || end <= 0) {
        assert(left[end - 1] == right[end - 1]);
        if end >= 2 {
            assert(left[end - 2] == right[end - 2]);
        }
        trimmed_alike(left, right, root, end - 1);
    }
}

proof fn a_prefix_is_set_off(path: Seq<char>)
    ensures
        0 <= prefix_len(path) <= path.len(),
        is_verbatim(path) ==> prefix_len(path) >= 4,
        2 < prefix_len(path) < path.len() ==> is_separator(path[prefix_len(path)]),
        prefix_len(path) > 0 ==> prefix_len(path) >= 2,
        prefix_len(path) == 2 ==> has_drive(path),
{
    if path.len() >= 2 {
        component_ends_behind_start(path, 2);
        if component_end(path, 2) < path.len() {
            component_ends_behind_start(path, component_end(path, 2) + 1);
        }
    }
    if path.len() >= 4 {
        component_ends_behind_start(path, 4);
    }
    if path.len() >= 8 {
        component_ends_behind_start(path, 8);
        if component_end(path, 8) < path.len() {
            component_ends_behind_start(path, component_end(path, 8) + 1);
        }
    }
}

/// A name joined to the directory of a file leads to a sibling of the file: the
/// directory of the joined path is the same. There are two exceptions: a name that
/// becomes part of the prefix, as a share does behind the bare name of a server,
/// and a verbatim path whose separators are made single on the way.
pub proof fn a_joined_name_is_a_sibling(path: Seq<char>, name: Seq<char>)
    requires
        parent_of(path) matches Some(directory) && directory.len() > 0,
        name.len() > 0,
        forall|i: int| 0 <= i < name.len() ==> !is_separator(#[trigger] name[i]),
        name.last() != '.',
        keeps_directory(parent_of(path)->0, name, prefix_len(path)),
    ensures
        parent_of(joined_path(parent_of(path)->0, name)) == parent_of(path),
{
    let root = root_len(path);
    let directory = parent_of(path)->0;
    let joined = joined_path(directory, name);
    let end = trimmed_end(path, root, path.len() as int);
    let start = component_start(path, root, end);
    a_prefix_is_set_off(path);
    a_prefix_is_set_off(joined);
    trimmed_ends_are_ends(path, root, path.len() as int);
    component_start_bounds(path, root, end);
    trimmed_ends_are_ends(path, root, start);
    let kept = trimmed_end(path, root, start);
    assert(kept <= path.len());
    assert(directory =~= path.take(kept));
    assert(joined.take(kept) =~= directory);
    assert forall|i: int| 0 <= i < kept implies joined[i] == path[i] by {
        assert(joined.take(kept)[i] == joined[i]);
        assert(directory[i] == path[i]);
    }
    let name_start = joined.len() - name.len();
    assert(joined.skip(name_start) =~= name);
    assert forall|i: int| name_start <= i < joined.len() implies !is_separator(
        #[trigger] joined[i],
    ) by {
        assert(joined[i] == name[i - name_start]);
    }
    assert(joined.last() == name.last());
    assert(is_verbatim(joined) == is_verbatim(path));
    assert(root_len(joined) == root);
    a_name_starts_behind_its_directory(joined, root, name_start, joined.len() as int);
    assert(trimmed_end(joined, root, joined.len() as int) == joined.len());
    trimmed_alike(path, joined, root, kept);
}

} // verus!
