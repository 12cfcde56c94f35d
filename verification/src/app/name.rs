//! Under which name an offered file is saved.
//!
//! A sender names its file as it likes. The receiver keeps only the last part of that
//! name, so that the file lands in the folder it was meant for.

use vstd::prelude::*;
use vstd::string::*;

use crate::text::{chars_of, owned_text, string_of};

verus! {

/// The name of a file whose announced name has no last part.
pub const UNNAMED_FILE: &'static str = "received_file";

/// Whether a character separates the parts of a path, on a machine with this main
/// separator. A slash does on every machine.
pub open spec fn separates(c: char, separator: char) -> bool {
    c == '/' || c == separator
}

/// Whether a path starts with the name of a drive, which is a letter and a colon. Only
/// machines with backslashes have drives.
pub open spec fn has_drive(path: Seq<char>, separator: char) -> bool {
    &&& separator == '\\'
    &&& path.len() >= 2
    &&& ('a' <= path[0] <= 'z' || 'A' <= path[0] <= 'Z')
    &&& path[1] == ':'
}

/// Where the first piece of a path from `from` on ends: before the next separator.
pub open spec fn piece_end(path: Seq<char>, from: nat, separator: char) -> nat
    decreases path.len() - from,
{
    if from >= path.len() || separates(path[from as int], separator) {
        from
    } else {
        piece_end(path, from + 1, separator)
    }
}

/// How much of a path only says where the path starts, and is no part of it: the name of
/// a drive, or two separators with the name of a server and that of one of its shares.
/// Only machines with backslashes have those.
pub open spec fn prefix_len(path: Seq<char>, separator: char) -> nat {
    let server_end = piece_end(path, 2, separator);
    let share_end = piece_end(path, server_end + 1, separator);
    if has_drive(path, separator) {
        2
    } else if separator == '\\' && path.len() >= 2 && separates(path[0], separator) && separates(
        path[1],
        separator,
    ) && 2 < server_end && server_end + 1 < share_end {
        share_end
    } else {
        0
    }
}

/// Where the last piece of a path starts: behind its last separator.
pub open spec fn piece_start(path: Seq<char>, separator: char) -> nat
    decreases path.len(),
{
    if path.len() == 0 || separates(path.last(), separator) {
        path.len()
    } else {
        piece_start(path.drop_last(), separator)
    }
}

/// The last of the pieces of a path that is neither empty nor a single dot. A path without
/// one, and one that ends with two dots, has none.
pub open spec fn last_piece(path: Seq<char>, separator: char) -> Option<Seq<char>>
    decreases path.len(),
{
    let start = piece_start(path, separator);
    let piece = path.skip(start as int);
    if piece.len() == 0 || piece == seq!['.'] {
        if 0 < start <= path.len() {
            last_piece(path.take(start - 1), separator)
        } else {
            None
        }
    } else if piece == seq!['.', '.'] {
        None
    } else {
        Some(piece)
    }
}

/// The last part of a path: the last piece of what follows its prefix.
pub open spec fn last_part(path: Seq<char>, separator: char) -> Option<Seq<char>> {
    last_piece(path.skip(prefix_len(path, separator) as int), separator)
}

/// The name under which a file is saved, given the last part of its announced name. A part
/// that starts with a drive of its own would lead out of the folder, and does not count.
pub open spec fn cleaned(last: Option<Seq<char>>, separator: char) -> Seq<char> {
    match last {
        Some(part) => if has_drive(part, separator) {
            UNNAMED_FILE@
        } else {
            part
        },
        None => UNNAMED_FILE@,
    }
}

/// The name under which a file with this announced name is saved.
pub open spec fn saved_name(announced: Seq<char>, separator: char) -> Seq<char> {
    cleaned(last_part(announced, separator), separator)
}

fn is_separator(c: char, separator: char) -> (found: bool)
    ensures
        found == separates(c, separator),
{
    c == '/' || c == separator
}

fn starts_with_drive(chars: &Vec<char>, separator: char) -> (found: bool)
    ensures
        found == has_drive(chars@, separator),
{
    separator == '\\' && chars.len() >= 2 && (('a' <= chars[0] && chars[0] <= 'z') || ('A'
        <= chars[0] && chars[0] <= 'Z')) && chars[1] == ':'
}

/// Where the first piece of `chars[from ..]` ends.
fn find_piece_end(chars: &Vec<char>, from: usize, separator: char) -> (end: usize)
    requires
        from <= chars@.len(),
    ensures
        end == piece_end(chars@, from as nat, separator),
        from <= end <= chars@.len(),
{
    let mut end: usize = from;
    while end < chars.len() && !is_separator(chars[end], separator)
        invariant
            from <= end <= chars@.len(),
            piece_end(chars@, end as nat, separator) == piece_end(chars@, from as nat, separator),
        decreases chars@.len() - end,
    {
        end = end + 1;
    }
    end
}

/// How much of a path only says where the path starts.
fn find_prefix(chars: &Vec<char>, separator: char) -> (len: usize)
    ensures
        len == prefix_len(chars@, separator),
        len <= chars@.len(),
{
    if starts_with_drive(chars, separator) {
        return 2;
    }
    if separator != '\\' || chars.len() < 2 || !is_separator(chars[0], separator) || !is_separator(
        chars[1],
        separator,
    ) {
        return 0;
    }
    let server_end: usize = find_piece_end(chars, 2, separator);
    if server_end == 2 || server_end >= chars.len() {
        return 0;
    }
    let share_end: usize = find_piece_end(chars, server_end + 1, separator);
    if share_end == server_end + 1 {
        return 0;
    }
    share_end
}

/// Where the last piece of `chars[.. end]` starts.
fn find_piece(chars: &Vec<char>, end: usize, separator: char) -> (start: usize)
    requires
        end <= chars@.len(),
    ensures
        start == piece_start(chars@.take(end as int), separator),
        start <= end,
{
    let mut start: usize = end;
    while start > 0 && !is_separator(chars[start - 1], separator)
        invariant
            start <= end <= chars@.len(),
            piece_start(chars@.take(start as int), separator) == piece_start(
                chars@.take(end as int),
                separator,
            ),
        decreases start,
    {
        assert(chars@.take(start as int).drop_last() =~= chars@.take(start - 1));
        start = start - 1;
    }
    start
}

/// The last part of a path.
pub fn file_name(path: &str, separator: char) -> (part: Option<String>)
    ensures
        owned_text(part) == last_part(path@, separator),
{
    let whole: Vec<char> = chars_of(path);
    let prefix: usize = find_prefix(&whole, separator);
    let chars: Vec<char> = vstd::slice::slice_to_vec(
        vstd::slice::slice_subrange(whole.as_slice(), prefix, whole.len()),
    );
    assert(chars@ =~= path@.skip(prefix as int));
    let mut end: usize = chars.len();
    assert(chars@.take(end as int) =~= chars@);
    loop
        invariant
            end <= chars@.len(),
            last_piece(chars@.take(end as int), separator) == last_part(path@, separator),
        decreases end,
    {
        let start: usize = find_piece(&chars, end, separator);
        let ghost path_left = chars@.take(end as int);
        let ghost piece = path_left.skip(start as int);
        assert(piece =~= chars@.subrange(start as int, end as int));
        let len: usize = end - start;
        if len == 0 || (len == 1 && chars[start] == '.') {
            proof {
                if len == 1 {
                    assert(piece =~= seq!['.']);
                }
            }
            if start == 0 {
                return None;
            }
            assert(path_left.take(start - 1) =~= chars@.take(start - 1));
            end = start - 1;
        } else {
            proof {
                if piece == seq!['.'] {
                    assert(piece[0] == chars@[start as int]);
                }
            }
            if len == 2 && chars[start] == '.' && chars[start + 1] == '.' {
                assert(piece =~= seq!['.', '.']);
                return None;
            }
            proof {
                if piece == seq!['.', '.'] {
                    assert(piece[0] == chars@[start as int]);
                    assert(piece[1] == chars@[start + 1]);
                }
            }
            return Some(string_of(chars.as_slice(), start, end));
        }
    }
}

/// The name under which a file is saved, given the last part of its announced name.
pub fn clean_name(last: Option<String>, separator: char) -> (name: String)
    ensures
        name@ == cleaned(owned_text(last), separator),
{
    match last {
        Some(part) => {
            let chars: Vec<char> = chars_of(part.as_str());
            if starts_with_drive(&chars, separator) {
                UNNAMED_FILE.to_string()
            } else {
                part
            }
        },
        None => UNNAMED_FILE.to_string(),
    }
}

proof fn lemma_piece(path: Seq<char>, separator: char)
    ensures
        piece_start(path, separator) <= path.len(),
        forall|i: int|
            piece_start(path, separator) <= i < path.len() ==> !separates(
                #[trigger] path[i],
                separator,
            ),
    decreases path.len(),
{
    if path.len() > 0 && !separates(path.last(), separator) {
        lemma_piece(path.drop_last(), separator);
        assert forall|i: int| piece_start(path, separator) <= i < path.len() implies !separates(
            #[trigger] path[i],
            separator,
        ) by {
            if i < path.len() - 1 {
                assert(path.drop_last()[i] == path[i]);
            }
        }
    }
}

/// Whether a name names a file of the folder that it is looked up in: it has no
/// separator and no drive, and is neither empty nor one of the names with which a folder
/// refers to itself and to the folder above.
pub open spec fn stays_in_folder(name: Seq<char>, separator: char) -> bool {
    &&& name.len() > 0
    &&& !has_drive(name, separator)
    &&& name != seq!['.']
    &&& name != seq!['.', '.']
    &&& forall|i: int| 0 <= i < name.len() ==> !separates(#[trigger] name[i], separator)
}

proof fn lemma_last_piece(path: Seq<char>, separator: char)
    ensures
        last_piece(path, separator) matches Some(part) ==> (has_drive(part, separator)
            || stays_in_folder(part, separator)) && exists|i: int, j: int|
            0 <= i <= j <= path.len() && part == #[trigger] path.subrange(i, j),
    decreases path.len(),
{
    lemma_piece(path, separator);
    let start = piece_start(path, separator);
    let piece = path.skip(start as int);
    if piece.len() == 0 || piece == seq!['.'] {
        if start > 0 {
            let shorter = path.take(start - 1);
            lemma_last_piece(shorter, separator);
            if last_piece(shorter, separator) is Some {
                let part = last_piece(shorter, separator)->Some_0;
                let (i, j) = choose|i: int, j: int|
                    0 <= i <= j <= shorter.len() && part == #[trigger] shorter.subrange(i, j);
                assert(path.subrange(i, j) =~= shorter.subrange(i, j));
            }
        }
    } else if piece != seq!['.', '.'] {
        assert(piece =~= path.subrange(start as int, path.len() as int));
    }
}

proof fn lemma_piece_end(path: Seq<char>, from: nat, separator: char)
    requires
        from <= path.len(),
    ensures
        from <= piece_end(path, from, separator) <= path.len(),
        forall|i: int|
            from <= i < piece_end(path, from, separator) ==> !separates(
                #[trigger] path[i],
                separator,
            ),
        piece_end(path, from, separator) < path.len() ==> separates(
            path[piece_end(path, from, separator) as int],
            separator,
        ),
    decreases path.len() - from,
{
    if from < path.len() && !separates(path[from as int], separator) {
        lemma_piece_end(path, from + 1, separator);
    }
}

proof fn lemma_prefix(path: Seq<char>, separator: char)
    ensures
        prefix_len(path, separator) <= path.len(),
{
    if path.len() >= 2 {
        lemma_piece_end(path, 2, separator);
        let server_end = piece_end(path, 2, separator);
        if server_end < path.len() {
            lemma_piece_end(path, server_end + 1, separator);
        }
    }
}

/// Whatever name a sender announces, the file is saved in the folder that it is saved
/// to, under a part of the announced name or under the name for files without one.
pub proof fn law_saved_name_stays_in_folder(announced: Seq<char>, separator: char)
    requires
        separator == '/' || separator == '\\',
    ensures
        stays_in_folder(saved_name(announced, separator), separator),
        saved_name(announced, separator) == UNNAMED_FILE@ || exists|i: int, j: int|
            0 <= i <= j <= announced.len() && saved_name(announced, separator)
                == #[trigger] announced.subrange(i, j),
{
    lemma_prefix(announced, separator);
    let p = prefix_len(announced, separator) as int;
    let rest = announced.skip(p);
    lemma_last_piece(rest, separator);
    reveal_strlit("received_file");
    assert(UNNAMED_FILE@.len() == 13 && UNNAMED_FILE@[1] == 'e');
    assert(stays_in_folder(UNNAMED_FILE@, separator));
    if last_part(announced, separator) is Some {
        let part = last_part(announced, separator)->Some_0;
        let (i, j) = choose|i: int, j: int|
            0 <= i <= j <= rest.len() && part == #[trigger] rest.subrange(i, j);
        assert(announced.subrange(p + i, p + j) =~= part);
    }
}

/// A name that stays in its folder is saved as it is.
pub proof fn law_plain_names_are_kept(announced: Seq<char>, separator: char)
    requires
        stays_in_folder(announced, separator),
    ensures
        saved_name(announced, separator) == announced,
{
    if announced.len() >= 2 {
        assert(!separates(announced[0], separator));
    }
    lemma_no_separator(announced, separator);
    assert(announced.skip(0) =~= announced);
}

proof fn lemma_no_separator(path: Seq<char>, separator: char)
    requires
        forall|i: int| 0 <= i < path.len() ==> !separates(#[trigger] path[i], separator),
    ensures
        piece_start(path, separator) == 0,
    decreases path.len(),
{
    if path.len() > 0 {
        assert(!separates(path[path.len() - 1], separator));
        assert forall|i: int| 0 <= i < path.len() - 1 implies !separates(
            #[trigger] path.drop_last()[i],
            separator,
        ) by {
            assert(path.drop_last()[i] == path[i]);
        }
        lemma_no_separator(path.drop_last(), separator);
    }
}

/// A path into a folder is saved under what follows the folder, where the folder holds all
/// that only says where the path starts. On a machine with slashes every folder does.
pub proof fn law_folders_are_dropped(folder: Seq<char>, name: Seq<char>, separator: char)
    requires
        stays_in_folder(name, separator),
        separator == '/' || prefix_len(folder.push('/') + name, separator) <= folder.len(),
    ensures
        saved_name(folder.push('/') + name, separator) == name,
{
    let path = folder.push('/') + name;
    let p = prefix_len(path, separator) as int;
    let rest = folder.skip(p);
    assert(path.skip(p) =~= rest.push('/') + name);
    lemma_start_behind(rest, name, separator);
    assert((rest.push('/') + name).skip(rest.len() as int + 1) =~= name);
}

proof fn lemma_start_behind(folder: Seq<char>, name: Seq<char>, separator: char)
    requires
        forall|i: int| 0 <= i < name.len() ==> !separates(#[trigger] name[i], separator),
    ensures
        piece_start(folder.push('/') + name, separator) == folder.len() + 1,
    decreases name.len(),
{
    let path = folder.push('/') + name;
    if name.len() == 0 {
        assert(path.last() == '/');
    } else {
        assert(path.last() == name[name.len() - 1]);
        assert(path.drop_last() =~= folder.push('/') + name.drop_last());
        assert forall|i: int| 0 <= i < name.len() - 1 implies !separates(
            #[trigger] name.drop_last()[i],
            separator,
        ) by {
            assert(name.drop_last()[i] == name[i]);
        }
        lemma_start_behind(folder, name.drop_last(), separator);
    }
}

/// What only repeats where a path already is does not count: a separator at its end, and a
/// single dot there, change nothing. A path that ends with two dots names no file.
pub proof fn law_ends_without_a_name(path: Seq<char>)
    ensures
        saved_name(path.push('/'), '/') == saved_name(path, '/'),
        saved_name(path.push('/').push('.'), '/') == saved_name(path, '/'),
        saved_name(path.push('/').push('.').push('.'), '/') == "received_file"@,
        saved_name(Seq::empty(), '/') == "received_file"@,
{
    let slashed = path.push('/');
    let dotted = slashed.push('.');
    let twice = dotted.push('.');
    assert(slashed.skip(0) =~= slashed);
    assert(dotted.skip(0) =~= dotted);
    assert(twice.skip(0) =~= twice);
    assert(path.skip(0) =~= path);
    assert(slashed.take(path.len() as int) =~= path);
    assert(dotted.take(path.len() as int) =~= path);
    lemma_start_behind(path, Seq::empty(), '/');
    assert(path.push('/') + Seq::<char>::empty() =~= slashed);
    lemma_start_behind(path, seq!['.'], '/');
    assert(path.push('/') + seq!['.'] =~= dotted);
    lemma_start_behind(path, seq!['.', '.'], '/');
    assert(path.push('/') + seq!['.', '.'] =~= twice);
    assert(slashed.skip(path.len() as int + 1) =~= Seq::<char>::empty());
    assert(dotted.skip(path.len() as int + 1) =~= seq!['.']);
    assert(twice.skip(path.len() as int + 1) =~= seq!['.', '.']);
    let none = Seq::<char>::empty();
    assert(none.skip(0) =~= none);
}

/// On a machine with drives the name of one is no part of a file's name, nor are the
/// folders behind it; on other machines it is kept.
pub proof fn law_drives_are_dropped(letter: char, name: Seq<char>)
    requires
        'a' <= letter <= 'z' || 'A' <= letter <= 'Z',
        stays_in_folder(name, '\\'),
    ensures
        saved_name(seq![letter, ':'] + name, '\\') == name,
        saved_name(seq![letter, ':', '\\'] + name, '\\') == name,
        saved_name(seq![letter, ':', '/'] + name, '\\') == name,
        saved_name(seq![letter, ':'] + name, '/') == seq![letter, ':'] + name,
{
    let near = seq![letter, ':'] + name;
    assert(near.skip(2) =~= name);
    lemma_no_separator(name, '\\');
    assert(name.skip(0) =~= name);
    let back = seq![letter, ':', '\\'] + name;
    let slash = seq![letter, ':', '/'] + name;
    assert(back.skip(2) =~= seq!['\\'] + name);
    assert(slash.skip(2) =~= Seq::<char>::empty().push('/') + name);
    lemma_start_behind(Seq::empty(), name, '\\');
    assert((seq!['/'] + name).skip(1) =~= name);
    assert(Seq::<char>::empty().push('/') + name =~= seq!['/'] + name);
    lemma_start_behind_backslash(name);
    assert((seq!['\\'] + name).skip(1) =~= name);
    assert forall|i: int| 0 <= i < near.len() implies !separates(#[trigger] near[i], '/') by {
        if i >= 2 {
            assert(!separates(name[i - 2], '\\'));
        }
    }
    assert(near.len() > 2 && near[1] == ':');
    assert(stays_in_folder(near, '/'));
    law_plain_names_are_kept(near, '/');
}

proof fn lemma_start_behind_backslash(name: Seq<char>)
    requires
        forall|i: int| 0 <= i < name.len() ==> !separates(#[trigger] name[i], '\\'),
    ensures
        piece_start(seq!['\\'] + name, '\\') == 1,
    decreases name.len(),
{
    let path = seq!['\\'] + name;
    if name.len() == 0 {
        assert(path.last() == '\\');
    } else {
        assert(path.last() == name[name.len() - 1]);
        assert(path.drop_last() =~= seq!['\\'] + name.drop_last());
        assert forall|i: int| 0 <= i < name.len() - 1 implies !separates(
            #[trigger] name.drop_last()[i],
            '\\',
        ) by {
            assert(name.drop_last()[i] == name[i]);
        }
        lemma_start_behind_backslash(name.drop_last());
    }
}

} // verus!
