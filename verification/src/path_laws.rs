//! What holds of paths as a whole.

use vstd::prelude::*;

use crate::paths::{
    a_name_starts_behind_its_directory, component_end, component_names, component_start,
    component_start_bounds, extension_of, file_name_span, is_same_path, is_separator, is_verbatim,
    joined_path, last_dot, parent_of, prefix_len, root_len, separated_at, stem_of, trimmed_end,
    trimmed_ends_are_ends, with_extension_of,
};

verus! {

/// Whether a path is a directory below the root of a drive, written out to its last
/// component.
pub open spec fn is_below_a_drive(directory: Seq<char>) -> bool {
    &&& directory.len() > 3
    &&& 'a' <= directory[0] <= 'z' || 'A' <= directory[0] <= 'Z'
    &&& directory[1] == ':'
    &&& directory[2] == '\\'
    &&& directory.last() != '\\' && directory.last() != '/' && directory.last() != '.'
}

/// Whether a text is the name of a file, without a dot at its end.
pub open spec fn is_plain_name(name: Seq<char>) -> bool {
    &&& name.len() > 0
    &&& name.last() != '.'
    &&& !name.contains('\\') && !name.contains('/')
}

proof fn a_plain_name_has_no_separator(name: Seq<char>, i: int)
    requires
        is_plain_name(name),
        0 <= i < name.len(),
    ensures
        !is_separator(name[i]),
{
    assert(name.contains(name[i]));
}

/// A name is joined to a directory with one backslash between them, and then the
/// directory is its parent, and the name is the name of the file.
pub proof fn a_joined_name_lies_in_its_directory(directory: Seq<char>, name: Seq<char>)
    requires
        is_below_a_drive(directory),
        is_plain_name(name),
    ensures
        joined_path(directory, name) == directory + seq!['\\'] + name,
        parent_of(directory + seq!['\\'] + name) == Some(directory),
        file_name_span(directory + seq!['\\'] + name) == Some(
            ((directory.len() + 1) as int, (directory.len() + 1 + name.len()) as int),
        ),
{
    let joined = directory + seq!['\\'] + name;
    let start = directory.len() + 1;
    assert forall|i: int| start <= i < joined.len() implies !is_separator(
        #[trigger] joined[i],
    ) by {
        assert(joined[i] == name[i - start]);
        a_plain_name_has_no_separator(name, i - start);
    }
    assert(joined[0] == directory[0] && joined[1] == ':' && joined[2] == '\\');
    assert(root_len(joined) == 3);
    assert(joined.last() == name.last());
    assert(!is_separator(joined.last()));
    assert(trimmed_end(joined, 3, joined.len() as int) == joined.len());
    a_name_starts_behind_its_directory(joined, 3, start as int, joined.len() as int);
    reveal_with_fuel(trimmed_end, 2);
    assert(joined[start - 1] == '\\');
    assert(joined[start - 2] == directory.last());
    assert(trimmed_end(joined, 3, start as int) == directory.len());
    assert(joined.take(directory.len() as int) =~= directory);
    let text = joined.subrange(start as int, joined.len() as int);
    assert(text =~= name);
    assert(name != seq!['.', '.'] && name != seq!['.']) by {
        if name == seq!['.', '.'] || name == seq!['.'] {
            assert(name.last() == '.');
        }
    }
}

/// A name is put behind a separator, or behind a bare drive, without another one; and
/// behind nothing it is the path.
pub proof fn no_separator_is_doubled(directory: Seq<char>, name: Seq<char>)
    requires
        !is_verbatim(directory),
        directory.len() == 0 || directory.last() == '\\' || directory.last() == '/' || (
        directory.len() == 2 && 'A' <= directory[0] <= 'Z' && directory[1] == ':'),
    ensures
        joined_path(directory, name) == directory + name,
{
}

proof fn the_last_dot_is_found(stem: Seq<char>, extension: Seq<char>)
    requires
        !extension.contains('.'),
    ensures
        last_dot(stem + seq!['.'] + extension) == stem.len(),
    decreases extension.len(),
{
    let name = stem + seq!['.'] + extension;
    if extension.len() == 0 {
        assert(name.last() == '.');
    } else {
        assert(extension.contains(extension.last()));
        assert(name.last() == extension.last());
        let shorter = extension.drop_last();
        assert forall|i: int| 0 <= i < shorter.len() implies shorter[i] != '.' by {
            assert(extension.contains(extension[i]));
        }
        assert(name.drop_last() =~= stem + seq!['.'] + shorter);
        the_last_dot_is_found(stem, shorter);
    }
}

proof fn no_dot_is_found(name: Seq<char>)
    requires
        !name.contains('.'),
    ensures
        last_dot(name) == -1,
    decreases name.len(),
{
    if name.len() > 0 {
        assert(name.contains(name.last()));
        let shorter = name.drop_last();
        assert forall|i: int| 0 <= i < shorter.len() implies shorter[i] != '.' by {
            assert(name.contains(name[i]));
        }
        no_dot_is_found(shorter);
    }
}

/// A file name is cut at its last dot into its stem and its extension. A name
/// without a dot, or with none but that at its front, has no extension.
pub proof fn a_file_name_is_cut_at_its_last_dot(stem: Seq<char>, extension: Seq<char>)
    requires
        !extension.contains('.'),
    ensures
        stem.len() > 0 ==> stem_of(stem + seq!['.'] + extension) == stem && extension_of(
            stem + seq!['.'] + extension,
        ) == Some(extension),
        stem_of(extension) == extension,
        extension_of(extension) is None,
        stem_of(seq!['.'] + extension) == seq!['.'] + extension,
        extension_of(seq!['.'] + extension) is None,
{
    the_last_dot_is_found(stem, extension);
    the_last_dot_is_found(Seq::empty(), extension);
    assert(Seq::<char>::empty() + seq!['.'] + extension =~= seq!['.'] + extension);
    no_dot_is_found(extension);
    let name = stem + seq!['.'] + extension;
    assert(name.take(stem.len() as int) =~= stem);
    assert(name.skip((stem.len() + 1) as int) =~= extension);
}

/// Another extension takes the place of the one that a file has, and the rest of the
/// path stays as it is.
pub proof fn an_extension_is_exchanged(
    directory: Seq<char>,
    stem: Seq<char>,
    extension: Seq<char>,
    changed: Seq<char>,
)
    requires
        is_below_a_drive(directory),
        stem.len() > 0,
        extension.len() > 0,
        !extension.contains('.'),
        is_plain_name(stem + seq!['.'] + extension),
        changed.len() > 0,
    ensures
        with_extension_of(directory + seq!['\\'] + (stem + seq!['.'] + extension), changed)
            == directory + seq!['\\'] + stem + seq!['.'] + changed,
{
    let name = stem + seq!['.'] + extension;
    let path = directory + seq!['\\'] + name;
    a_joined_name_lies_in_its_directory(directory, name);
    a_file_name_is_cut_at_its_last_dot(stem, extension);
    let start = directory.len() + 1;
    assert(path.subrange(start as int, path.len() as int) =~= name);
    assert(path.take((start + stem.len()) as int) =~= directory + seq!['\\'] + stem);
}

/// Files with different names in one directory are different files.
pub proof fn different_names_are_different_paths(
    directory: Seq<char>,
    name: Seq<char>,
    other: Seq<char>,
)
    requires
        is_below_a_drive(directory),
        is_plain_name(name),
        is_plain_name(other),
        is_same_path(directory + seq!['\\'] + name, directory + seq!['\\'] + other),
    ensures
        name == other,
{
    the_last_component_is_the_name(directory, name);
    the_last_component_is_the_name(directory, other);
}

proof fn the_last_component_is_the_name(directory: Seq<char>, name: Seq<char>)
    requires
        is_below_a_drive(directory),
        is_plain_name(name),
    ensures
        ({
            let joined = directory + seq!['\\'] + name;
            let names = component_names(joined, root_len(joined), joined.len() as int);
            names.len() > 0 && names.last() == name
        }),
{
    let joined = directory + seq!['\\'] + name;
    let start = directory.len() + 1;
    assert forall|i: int| start <= i < joined.len() implies !is_separator(
        #[trigger] joined[i],
    ) by {
        assert(joined[i] == name[i - start]);
        a_plain_name_has_no_separator(name, i - start);
    }
    assert(joined[0] == directory[0] && joined[1] == ':' && joined[2] == '\\');
    assert(root_len(joined) == 3);
    assert(joined.last() == name.last());
    assert(!is_separator(joined.last()));
    assert(trimmed_end(joined, 3, joined.len() as int) == joined.len());
    a_name_starts_behind_its_directory(joined, 3, start as int, joined.len() as int);
    assert(joined.subrange(start as int, joined.len() as int) =~= name);
}

/// Two paths that agree in their separators, and in their characters behind the
/// root, have the same components.
proof fn components_alike(left: Seq<char>, right: Seq<char>, root: int, end: int)
    requires
        0 <= root,
        end <= left.len(),
        end <= right.len(),
        !is_verbatim(left) && !is_verbatim(right),
        forall|i: int| 0 <= i < end ==> separated_at(left, i) == separated_at(right, i),
        forall|i: int| root <= i < end ==> (#[trigger] left[i] == right[i] || (separated_at(left, i)
            && separated_at(right, i))),
    ensures
        component_names(left, root, end) == component_names(right, root, end),
    decreases end,
{
    ends_alike(left, right, root, end);
    trimmed_ends_are_ends(left, root, end);
    let last_end = trimmed_end(left, root, end);
    if root < last_end {
        starts_alike(left, right, root, last_end);
        component_start_bounds(left, root, last_end);
        a_component_holds_no_separator(left, root, last_end);
        let last_start = component_start(left, root, last_end);
        if 0 <= last_start < end {
            components_alike(left, right, root, last_start);
            assert(left.subrange(last_start, last_end) =~= right.subrange(last_start, last_end));
        }
    }
}

proof fn ends_alike(left: Seq<char>, right: Seq<char>, root: int, end: int)
    requires
        0 <= root,
        end <= left.len(),
        end <= right.len(),
        !is_verbatim(left) && !is_verbatim(right),
        forall|i: int| 0 <= i < end ==> separated_at(left, i) == separated_at(right, i),
        forall|i: int| root <= i < end ==> (#[trigger] left[i] == right[i] || (separated_at(left, i)
            && separated_at(right, i))),
    ensures
        trimmed_end(left, root, end) == trimmed_end(right, root, end),
    decreases end,
{
    if !(end <= root || end <= 0) {
        assert(separated_at(left, end - 1) == separated_at(right, end - 1));
        assert(left[end - 1] == right[end - 1] || separated_at(left, end - 1));
        if end >= 2 {
            assert(separated_at(left, end - 2) == separated_at(right, end - 2));
        }
        ends_alike(left, right, root, end - 1);
    }
}

proof fn starts_alike(left: Seq<char>, right: Seq<char>, root: int, end: int)
    requires
        0 <= root,
        end <= left.len(),
        end <= right.len(),
        forall|i: int| 0 <= i < end ==> separated_at(left, i) == separated_at(right, i),
    ensures
        component_start(left, root, end) == component_start(right, root, end),
    decreases end,
{
    if !(end <= root || end <= 0) {
        assert(separated_at(left, end - 1) == separated_at(right, end - 1));
        starts_alike(left, right, root, end - 1);
    }
}

proof fn a_component_holds_no_separator(path: Seq<char>, root: int, end: int)
    requires
        0 <= root,
        end <= path.len(),
    ensures
        forall|i: int|
            component_start(path, root, end) <= i < end ==> !separated_at(path, i),
    decreases end,
{
    if !(end <= root || end <= 0 || separated_at(path, end - 1)) {
        a_component_holds_no_separator(path, root, end - 1);
    }
}

/// Two paths below a drive that differ in the case of the drive, or in which of the
/// two slashes separates their components, are the same path.
pub proof fn drive_case_and_slashes_do_not_count(left: Seq<char>, right: Seq<char>)
    requires
        left.len() == right.len() > 3,
        'a' <= left[0] <= 'z',
        right[0] as int == left[0] as int - 'a' as int + 'A' as int,
        left[1] == ':' && right[1] == ':',
        left[2] == '\\' && (right[2] == '\\' || right[2] == '/'),
        forall|i: int|
            3 <= i < left.len() ==> #[trigger] left[i] == right[i] || (left[i] == '\\' && right[i]
                == '/'),
    ensures
        is_same_path(left, right),
{
    assert(root_len(left) == 3 && root_len(right) == 3);
    assert forall|i: int| 0 <= i < left.len() implies separated_at(left, i) == separated_at(
        right,
        i,
    ) by {
        if i >= 3 {
            assert(left[i] == right[i] || (left[i] == '\\' && right[i] == '/'));
        }
    }
    components_alike(left, right, 3, left.len() as int);
}

/// A separator behind the last component does not count.
pub proof fn a_separator_at_the_end_does_not_count(path: Seq<char>)
    requires
        is_below_a_drive(path),
    ensures
        is_same_path(path, path.push('\\')),
{
    let longer = path.push('\\');
    assert(longer[0] == path[0] && longer[1] == ':' && longer[2] == '\\');
    assert(root_len(path) == 3 && root_len(longer) == 3);
    assert forall|i: int| 0 <= i < path.len() implies separated_at(path, i) == separated_at(
        longer,
        i,
    ) by {
        assert(longer[i] == path[i]);
    }
    assert forall|i: int| 3 <= i < path.len() implies #[trigger] path[i] == longer[i] by {}
    let end = path.len() as int;
    components_alike(path, longer, 3, end);
    assert(longer[end] == '\\');
    assert(longer[end - 1] == path.last());
    assert(trimmed_end(longer, 3, end) == end);
    assert(trimmed_end(longer, 3, end + 1) == end);
    component_start_bounds(longer, 3, end);
    trimmed_ends_are_ends(path, 3, end);
    assert(component_start(longer, 3, end) < end) by {
        component_start_bounds(longer, 3, end - 1);
    }
    assert(component_names(longer, 3, end + 1) == component_names(longer, 3, end));
}

proof fn a_component_ends(path: Seq<char>, from: int, to: int)
    requires
        0 <= from <= to <= path.len(),
        forall|i: int| from <= i < to ==> !separated_at(path, i),
        to == path.len() || separated_at(path, to),
    ensures
        component_end(path, from) == to,
    decreases to - from,
{
    if from < to {
        assert(!separated_at(path, from));
        a_component_ends(path, from + 1, to);
    }
}

/// The root of a drive has no parent.
pub proof fn a_root_has_no_parent(letter: char)
    requires
        'a' <= letter <= 'z' || 'A' <= letter <= 'Z',
    ensures
        parent_of(seq![letter, ':', '\\']) is None,
        parent_of(seq![letter, ':']) is None,
        parent_of(seq!['\\']) is None,
        parent_of(Seq::empty()) is None,
{
    reveal_with_fuel(component_end, 4);
}

/// A server and its share are one prefix, whatever is behind them.
pub proof fn a_share_is_a_prefix(server: Seq<char>, share: Seq<char>, rest: Seq<char>)
    requires
        is_plain_name(server),
        is_plain_name(share),
        server[0] != '?' && server[0] != '.',
    ensures
        prefix_len(seq!['\\', '\\'] + server + seq!['\\'] + share + seq!['\\'] + rest) == 2
            + server.len() + 1 + share.len(),
{
    let path = seq!['\\', '\\'] + server + seq!['\\'] + share + seq!['\\'] + rest;
    let server_end = 2 + server.len();
    let share_end = server_end + 1 + share.len();
    assert(path[2] == server[0]);
    assert forall|i: int| 2 <= i < server_end implies !separated_at(path, i) by {
        assert(path[i] == server[i - 2]);
        a_plain_name_has_no_separator(server, i - 2);
    }
    assert(path[server_end as int] == '\\');
    a_component_ends(path, 2, server_end as int);
    assert forall|i: int| server_end + 1 <= i < share_end implies !separated_at(path, i) by {
        assert(path[i] == share[i - server_end - 1]);
        a_plain_name_has_no_separator(share, i - server_end - 1);
    }
    assert(path[share_end as int] == '\\');
    a_component_ends(path, (server_end + 1) as int, share_end as int);
}

/// A verbatim path begins with a drive where one follows in full, and otherwise with
/// its first component, or with a server and its share.
pub proof fn a_verbatim_path_has_its_prefix(
    letter: char,
    name: Seq<char>,
    share: Seq<char>,
    rest: Seq<char>,
)
    requires
        'a' <= letter <= 'z' || 'A' <= letter <= 'Z',
        is_plain_name(name),
        is_plain_name(share),
        name.len() > 3,
    ensures
        prefix_len(seq!['\\', '\\', '?', '\\', letter, ':', '\\'] + rest) == 6,
        prefix_len(seq!['\\', '\\', '?', '\\'] + name + seq!['\\'] + rest) == 4 + name.len(),
        prefix_len(
            seq!['\\', '\\', '?', '\\', 'U', 'N', 'C', '\\'] + name + seq!['\\'] + share + seq![
                '\\',
            ] + rest,
        ) == 8 + name.len() + 1 + share.len(),
{
    let on_drive = seq!['\\', '\\', '?', '\\', letter, ':', '\\'] + rest;
    assert(on_drive[3] == '\\' && on_drive[4] == letter && on_drive[5] == ':');
    assert(on_drive[6] == '\\');
    let named = seq!['\\', '\\', '?', '\\'] + name + seq!['\\'] + rest;
    let end = 4 + name.len();
    assert forall|i: int| 4 <= i < end implies !is_separator(#[trigger] named[i]) by {
        assert(named[i] == name[i - 4]);
        a_plain_name_has_no_separator(name, i - 4);
    }
    assert(!is_separator(named[6]) && !is_separator(named[7]));
    assert(named[end as int] == '\\');
    assert(is_verbatim(named));
    a_component_ends(named, 4, end as int);
    let served = seq!['\\', '\\', '?', '\\', 'U', 'N', 'C', '\\'] + name + seq!['\\'] + share
        + seq!['\\'] + rest;
    let server_end = 8 + name.len();
    let share_end = server_end + 1 + share.len();
    assert forall|i: int| 8 <= i < server_end implies !separated_at(served, i) by {
        assert(served[i] == name[i - 8]);
        a_plain_name_has_no_separator(name, i - 8);
    }
    assert(served[server_end as int] == '\\');
    a_component_ends(served, 8, server_end as int);
    assert forall|i: int| server_end + 1 <= i < share_end implies !separated_at(served, i) by {
        assert(served[i] == share[i - server_end - 1]);
        a_plain_name_has_no_separator(share, i - server_end - 1);
    }
    assert(served[share_end as int] == '\\');
    a_component_ends(served, (server_end + 1) as int, share_end as int);
}

/// A name is joined to a directory on a verbatim drive, and to that drive itself, with
/// one backslash between them.
pub proof fn a_name_is_joined_to_a_verbatim_path(letter: char, folder: Seq<char>, name: Seq<char>)
    requires
        'a' <= letter <= 'z' || 'A' <= letter <= 'Z',
        is_plain_name(folder),
        is_plain_name(name),
    ensures
        joined_path(seq!['\\', '\\', '?', '\\', letter, ':'], name) == seq![
            '\\',
            '\\',
            '?',
            '\\',
            letter,
            ':',
            '\\',
        ] + name,
        joined_path(seq!['\\', '\\', '?', '\\', letter, ':', '\\'] + folder, name) == seq![
            '\\',
            '\\',
            '?',
            '\\',
            letter,
            ':',
            '\\',
        ] + folder + seq!['\\'] + name,
{
    let root = seq!['\\', '\\', '?', '\\', letter, ':', '\\'];
    let drive = seq!['\\', '\\', '?', '\\', letter, ':'];
    assert(is_verbatim(drive) && prefix_len(drive) == 6 && root_len(drive) == 6);
    assert(component_names(drive, 6, 6) =~= Seq::empty());
    assert(drive.take(6) + seq!['\\'] =~= root);
    let path = root + folder;
    assert(path[3] == '\\' && path[4] == letter && path[5] == ':' && path[6] == '\\');
    assert(is_verbatim(path) && prefix_len(path) == 6 && root_len(path) == 7);
    let end = path.len() as int;
    assert forall|i: int| 7 <= i < end implies !is_separator(#[trigger] path[i]) by {
        assert(path[i] == folder[i - 7]);
        a_plain_name_has_no_separator(folder, i - 7);
    }
    assert(!is_separator(path[end - 1]));
    assert(trimmed_end(path, 7, end) == end);
    a_name_starts_behind_its_directory(path, 7, 7, end);
    assert(path.subrange(7, end) =~= folder);
    assert(component_names(path, 7, 7) =~= Seq::empty());
    assert(component_names(path, 7, end) =~= seq![folder]);
    assert(path.take(6) + seq!['\\'] =~= root);
    assert(joined_path(path, name) =~= root + folder + seq!['\\'] + name);
    assert(joined_path(drive, name) =~= root + name);
}

} // verus!
