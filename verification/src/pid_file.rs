//! Pid files: which adapter a file belongs to, and which pid a file holds.
//!
//! The daemon of the adapter with hci index `N` leaves the file
//! `bluetooth<N>.pid`, with `N` in decimal digits, in the pid directory. A
//! path belongs to an adapter where its file name, which is what follows its
//! last slash, is such a name and nothing more.
use crate::decimal::{
    all_digits, decimal_text, digits_only, digits_to_i32, i32_from_text, is_digit,
    lemma_decimal_round_trip, lemma_decimal_text_is_digits, text_to_i32,
};
use vstd::prelude::*;

verus! {

/// The word every pid file name begins with.
pub open spec fn name_prefix() -> Seq<char> {
    seq!['b', 'l', 'u', 'e', 't', 'o', 'o', 't', 'h']
}

/// The extension every pid file name ends with.
pub open spec fn name_suffix() -> Seq<char> {
    seq!['.', 'p', 'i', 'd']
}

/// Where the file name of `path` begins: after the last slash, or at the
/// beginning where the path holds no slash.
pub open spec fn file_name_start(path: Seq<char>) -> int
    decreases path.len(),
{
    if path.len() == 0 {
        0
    } else if path.last() == '/' {
        path.len() as int
    } else {
        file_name_start(path.drop_last())
    }
}

/// The file name of `path`: what follows its last slash.
pub open spec fn file_name(path: Seq<char>) -> Seq<char> {
    path.skip(file_name_start(path))
}

/// The digits of a file name that is long enough to be that of a pid file:
/// what stands between the prefix and the extension.
pub open spec fn index_digits(name: Seq<char>) -> Seq<char> {
    name.subrange(9, name.len() - 4)
}

/// Whether `name` is the name of a pid file: the prefix, at least one digit
/// and nothing but digits, the extension, and nothing before or after.
pub open spec fn is_pid_file_name(name: Seq<char>) -> bool {
    &&& name.len() >= 9 + 1 + 4
    &&& name.take(9) == name_prefix()
    &&& name.skip(name.len() - 4) == name_suffix()
    &&& all_digits(index_digits(name))
}

/// The hci index of the adapter that the pid file at `path` belongs to: the
/// digits of its file name, read as an `i32`. `None` where the file name is
/// not that of a pid file, and where no `i32` holds the number.
pub open spec fn hci_index_of(path: Seq<char>) -> Option<i32> {
    if is_pid_file_name(file_name(path)) {
        i32_from_text(index_digits(file_name(path)))
    } else {
        None
    }
}

/// The name of the pid file of the adapter `hci`.
pub open spec fn pid_file_name(hci: i32) -> Seq<char> {
    name_prefix() + decimal_text(hci as nat) + name_suffix()
}

/// Whether `c` is ASCII whitespace: a space, a tab, a line feed, a form feed
/// or a carriage return.
pub open spec fn is_ascii_whitespace(c: char) -> bool {
    c == ' ' || c == '\t' || c == '\n' || c == '\x0C' || c == '\r'
}

/// `text` without the ASCII whitespace at its end.
pub open spec fn without_trailing_whitespace(text: Seq<char>) -> Seq<char>
    decreases text.len(),
{
    if text.len() > 0 && is_ascii_whitespace(text.last()) {
        without_trailing_whitespace(text.drop_last())
    } else {
        text
    }
}

/// The bytes of a file as characters, one for each byte.
pub open spec fn as_text(contents: Seq<u8>) -> Seq<char> {
    contents.map_values(|b: u8| b as char)
}

/// The pid that a pid file with these `contents` holds: the contents without
/// the ASCII whitespace at their end, read as an `i32`, and 0 where they are
/// not the text of one.
pub open spec fn pid_of_contents(contents: Seq<u8>) -> i32 {
    match i32_from_text(without_trailing_whitespace(as_text(contents))) {
        Some(pid) => pid,
        None => 0,
    }
}

/// A path without a slash is its own file name.
pub proof fn lemma_file_name_without_slash(path: Seq<char>)
    requires
        forall|i: int| 0 <= i < path.len() ==> path[i] != '/',
    ensures
        file_name_start(path) == 0,
        file_name(path) == path,
    decreases path.len(),
{
    if path.len() > 0 {
        lemma_file_name_without_slash(path.drop_last());
    }
    assert(path.skip(0) =~= path);
}

/// What follows a slash and holds none is the file name, whatever stands in front.
pub proof fn lemma_file_name_after_directory(directory: Seq<char>, name: Seq<char>)
    requires
        forall|i: int| 0 <= i < name.len() ==> name[i] != '/',
    ensures
        file_name_start(directory + seq!['/'] + name) == directory.len() + 1,
        file_name(directory + seq!['/'] + name) == name,
    decreases name.len(),
{
    let path = directory + seq!['/'] + name;
    if name.len() == 0 {
        assert(path.last() == '/');
    } else {
        lemma_file_name_after_directory(directory, name.drop_last());
        assert(path.drop_last() =~= directory + seq!['/'] + name.drop_last());
        assert(path.last() == name.last());
    }
    assert(path.skip(directory.len() + 1int) =~= name);
}

/// The name of an adapter's pid file is a pid file name with the adapter's digits.
proof fn lemma_pid_file_name_is_one(hci: i32)
    requires
        hci >= 0,
    ensures
        is_pid_file_name(pid_file_name(hci)),
        i32_from_text(index_digits(pid_file_name(hci))) == Some(hci),
        forall|i: int| 0 <= i < pid_file_name(hci).len() ==> pid_file_name(hci)[i] != '/',
{
    let number = decimal_text(hci as nat);
    let name = pid_file_name(hci);
    lemma_decimal_text_is_digits(hci as nat);
    lemma_decimal_round_trip(hci as nat);
    assert(name.len() == 9 + number.len() + 4);
    assert(name.take(9) =~= name_prefix());
    assert(name.skip(name.len() - 4) =~= name_suffix());
    assert(index_digits(name) =~= number);
    assert(is_digit(number[0]));
    assert forall|i: int| 0 <= i < name.len() implies name[i] != '/' by {
        if 9 <= i < 9 + number.len() {
            assert(is_digit(number[i - 9]));
            assert(name[i] == number[i - 9]);
        }
    }
}

/// The name of an adapter's pid file names that adapter.
pub proof fn lemma_pid_file_name_names_its_adapter(hci: i32)
    requires
        hci >= 0,
    ensures
        hci_index_of(pid_file_name(hci)) == Some(hci),
{
    lemma_pid_file_name_is_one(hci);
    lemma_file_name_without_slash(pid_file_name(hci));
}

/// The pid file of an adapter names that adapter in whatever directory it lies.
pub proof fn lemma_pid_file_path_names_its_adapter(directory: Seq<char>, hci: i32)
    requires
        hci >= 0,
    ensures
        hci_index_of(directory + seq!['/'] + pid_file_name(hci)) == Some(hci),
{
    lemma_pid_file_name_is_one(hci);
    lemma_file_name_after_directory(directory, pid_file_name(hci));
}

/// A path whose file name is not that of a pid file names no adapter.
pub proof fn lemma_other_names_name_no_adapter(path: Seq<char>)
    requires
        !is_pid_file_name(file_name(path)),
    ensures
        hci_index_of(path) == None::<i32>,
{
}

/// The characters of `text`, one by one.
fn chars_of(text: &str) -> (chars: Vec<char>)
    ensures
        chars@ == text@,
{
    let mut chars: Vec<char> = Vec::new();
    for c in it: text.chars()
        invariant
            it.seq() == text@,
            chars@ == it.seq().take(it.index()),
    {
        chars.push(c);
    }
    chars
}

/// Whether `word` stands in `text` at `at`.
fn word_at(text: &Vec<char>, at: usize, word: &Vec<char>) -> (found: bool)
    ensures
        found == (at + word.len() <= text.len() && text@.subrange(at as int, at + word.len())
            == word@),
{
    if word.len() > text.len() || at > text.len() - word.len() {
        return false;
    }
    let mut i: usize = 0;
    while i < word.len()
        invariant
            i <= word.len(),
            at + word.len() <= text.len(),
            forall|j: int| 0 <= j < i ==> text[at + j] == word[j],
        decreases word.len() - i,
    {
        if text[at + i] != word[i] {
            assert(text@.subrange(at as int, at + word.len())[i as int] != word[i as int]);
            return false;
        }
        i = i + 1;
    }
    assert(text@.subrange(at as int, at + word.len()) =~= word@);
    true
}

/// Where the file name of `text` begins.
fn find_file_name(text: &Vec<char>) -> (start: usize)
    ensures
        start == file_name_start(text@),
        start <= text.len(),
{
    let mut start: usize = text.len();
    assert(text@.take(start as int) =~= text@);
    while start > 0 && text[start - 1] != '/'
        invariant
            start <= text.len(),
            file_name_start(text@) == file_name_start(text@.take(start as int)),
        decreases start,
    {
        assert(text@.take(start as int).drop_last() =~= text@.take(start - 1));
        start = start - 1;
    }
    assert(start > 0 ==> text@.take(start as int).last() == '/');
    start
}

/// The hci index of the adapter that the pid file at `path` belongs to.
pub fn get_hci_index_from_pid_path(path: &str) -> (hci: Option<i32>)
    ensures
        hci == hci_index_of(path@),
{
    let text = chars_of(path);
    let prefix = chars_of("bluetooth");
    let suffix = chars_of(".pid");
    proof {
        reveal_strlit("bluetooth");
        reveal_strlit(".pid");
        assert(prefix@ =~= name_prefix());
        assert(suffix@ =~= name_suffix());
    }
    let start: usize = find_file_name(&text);
    let end: usize = text.len();
    let ghost name = file_name(text@);
    if end - start < 14 {
        return None;
    }
    proof {
        assert(name.take(9) =~= text@.subrange(start as int, start + 9));
        assert(name.skip(name.len() - 4) =~= text@.subrange(end - 4, end as int));
        assert(index_digits(name) =~= text@.subrange(start + 9, end - 4));
    }
    if !word_at(&text, start, &prefix) || !word_at(&text, end - 4, &suffix) || !digits_only(
        &text,
        start + 9,
        end - 4,
    ) {
        return None;
    }
    assert(is_digit(index_digits(name)[0]));
    digits_to_i32(&text, start + 9, end - 4, false)
}

/// The pid that a pid file with these `contents` holds.
pub fn parse_pid(contents: &Vec<u8>) -> (pid: i32)
    ensures
        pid == pid_of_contents(contents@),
{
    // Leave out the whitespace at the end.
    let mut end: usize = contents.len();
    assert(as_text(contents@).take(end as int) =~= as_text(contents@));
    while end > 0 && (contents[end - 1] == 0x20 || contents[end - 1] == 0x09 || contents[end - 1]
        == 0x0A || contents[end - 1] == 0x0C || contents[end - 1] == 0x0D)
        invariant
            end <= contents.len(),
            without_trailing_whitespace(as_text(contents@)) == without_trailing_whitespace(
                as_text(contents@).take(end as int),
            ),
        decreases end,
    {
        proof {
            let kept = as_text(contents@).take(end as int);
            assert(kept.last() == contents[end - 1] as char);
            assert(is_ascii_whitespace(kept.last()));
            assert(kept.drop_last() =~= as_text(contents@).take(end - 1));
        }
        end = end - 1;
    }
    proof {
        let kept = as_text(contents@).take(end as int);
        if end > 0 {
            assert(kept.last() == contents[end - 1] as char);
            assert(!is_ascii_whitespace(kept.last()));
        }
        assert(without_trailing_whitespace(kept) == kept);
    }
    let mut text: Vec<char> = Vec::new();
    let mut i: usize = 0;
    while i < end
        invariant
            i <= end <= contents.len(),
            text@ == as_text(contents@).take(i as int),
        decreases end - i,
    {
        text.push(contents[i] as char);
        assert(text@ =~= as_text(contents@).take(i + 1));
        i = i + 1;
    }
    match text_to_i32(&text) {
        Some(pid) => pid,
        None => 0,
    }
}

} // verus!
