//! The allow-list: the fixed prefixes an instruction must begin with before
//! it may be run.

use vstd::prelude::*;
use vstd::string::*;
use crate::text::{slice_texts, starts_with};
use crate::words::{is_whitespace, words, lemma_words_of_leading_word};

verus! {

/// The allowed prefixes, in the order in which they are tried.
pub open spec fn allowed_prefixes() -> Seq<Seq<char>> {
    seq![
        "code ."@,
        "open -a Terminal"@,
        "open -a 'Google Chrome'"@,
        "open -a Spotify"@,
        "open -a Notes"@,
        "open -a Calculator"@,
        "open -a Calendar"@,
        "open -a Mail"@,
        "explorer"@,
        "notepad"@,
        "calc"@,
        "xdg-open"@,
    ]
}

/// An instruction is authorized exactly when it begins with an allowed
/// prefix. What follows the prefix is not looked at.
pub open spec fn is_authorized(command: Seq<char>) -> bool {
    exists|i: int|
        0 <= i < allowed_prefixes().len() && (#[trigger] allowed_prefixes()[i]).is_prefix_of(
            command,
        )
}

/// The allow-list as data.
pub fn allow_list() -> (list: Vec<&'static str>)
    ensures
        slice_texts(list@) == allowed_prefixes(),
{
    let list: Vec<&'static str> = vec![
        "code .",
        "open -a Terminal",
        "open -a 'Google Chrome'",
        "open -a Spotify",
        "open -a Notes",
        "open -a Calculator",
        "open -a Calendar",
        "open -a Mail",
        "explorer",
        "notepad",
        "calc",
        "xdg-open",
    ];
    assert(slice_texts(list@) =~= allowed_prefixes());
    list
}

/// Decides whether `command` may be run.
pub fn is_allowed(command: &str) -> (b: bool)
    ensures
        b == is_authorized(command@),
{
    let list = allow_list();
    let mut i: usize = 0;
    while i < list.len()
        invariant
            slice_texts(list@) == allowed_prefixes(),
            i <= list.len(),
            forall|k: int| 0 <= k < i ==> !(#[trigger] allowed_prefixes()[k]).is_prefix_of(command@),
        decreases list.len() - i,
    {
        assert(slice_texts(list@)[i as int] == list@[i as int]@);
        if starts_with(command, list[i]) {
            return true;
        }
        i = i + 1;
    }
    assert(slice_texts(list@).len() == list@.len());
    false
}

/// An authorized instruction stays authorized whatever is written after it.
pub proof fn lemma_authorized_with_suffix(command: Seq<char>, suffix: Seq<char>)
    requires
        is_authorized(command),
    ensures
        is_authorized(command + suffix),
{
    let i = choose|i: int|
        0 <= i < allowed_prefixes().len() && (#[trigger] allowed_prefixes()[i]).is_prefix_of(
            command,
        );
    let p = allowed_prefixes()[i];
    assert(p =~= (command + suffix).subrange(0, p.len() as int));
    assert(p.is_prefix_of(command + suffix));
}

/// Every allowed prefix is itself authorized.
pub proof fn lemma_prefixes_authorized(i: int)
    requires
        0 <= i < allowed_prefixes().len(),
    ensures
        is_authorized(allowed_prefixes()[i]),
{
    let p = allowed_prefixes()[i];
    assert(p =~= p.subrange(0, p.len() as int));
    assert(p.is_prefix_of(p));
}

/// Every allowed prefix begins with a character that is not whitespace.
pub proof fn lemma_allowed_prefixes_start()
    ensures
        allowed_prefixes().len() == 12,
        forall|i: int|
            0 <= i < allowed_prefixes().len() ==> (#[trigger] allowed_prefixes()[i]).len() > 0
                && !is_whitespace(allowed_prefixes()[i][0]),
{
    reveal_strlit("code .");
    reveal_strlit("open -a Terminal");
    reveal_strlit("open -a 'Google Chrome'");
    reveal_strlit("open -a Spotify");
    reveal_strlit("open -a Notes");
    reveal_strlit("open -a Calculator");
    reveal_strlit("open -a Calendar");
    reveal_strlit("open -a Mail");
    reveal_strlit("explorer");
    reveal_strlit("notepad");
    reveal_strlit("calc");
    reveal_strlit("xdg-open");
}

/// An authorized instruction has at least one word: its program name.
pub proof fn lemma_authorized_has_program(command: Seq<char>)
    requires
        is_authorized(command),
    ensures
        words(command).len() > 0,
{
    lemma_allowed_prefixes_start();
    let i = choose|i: int|
        0 <= i < allowed_prefixes().len() && (#[trigger] allowed_prefixes()[i]).is_prefix_of(
            command,
        );
    let p = allowed_prefixes()[i];
    assert(p[0] == command.subrange(0, p.len() as int)[0]);
    lemma_words_of_leading_word(command);
}

} // verus!
