//! Voice-note listened marks, persisted: one set per account, surviving restarts.
//!
//! The marks are the receiver's own memory. They are written beside the vault, one file per
//! account, one media id per line.

use std::collections::HashSet;

use vstd::prelude::*;

use crate::room_bridge::{beside_of, directory, under};
use crate::rows::{lemma_line, lines, lines_of, one_word, texts_of, uncr, views};
use crate::text::{blank, join};
use crate::wire::Id;

verus! {

broadcast use vstd::std_specs::hash::group_hash_axioms;

/// The directory beside the vault that holds the marks.
pub const VOICE_LISTENED_DIR: &'static str = "voice-listened";

/// The listened-marks store: one file per account, beside the vault.
pub struct VoiceListenedStore {
    /// The directory that holds the marks.
    pub dir: String,
}

impl VoiceListenedStore {
    /// The store beside a vault, whose directory is given; a vault without one lives here.
    pub fn beside(parent: Option<&str>) -> (store: Self)
        ensures
            store.dir@ == under(beside_of(parent), VOICE_LISTENED_DIR@),
    {
        VoiceListenedStore { dir: directory(parent, VOICE_LISTENED_DIR) }
    }

    /// The name of the directory that holds the marks.
    pub fn dir_name() -> (name: String)
        ensures
            name@ == VOICE_LISTENED_DIR@,
    {
        VOICE_LISTENED_DIR.to_owned()
    }

    /// The file that holds one account's marks, named by the text of the account's id.
    pub fn path(account: &str) -> (name: String)
        ensures
            name@ == marks_name(account@),
    {
        join(account, ".listened")
    }
}

/// The file that holds the marks of the account whose id is written like this.
pub open spec fn marks_name(account: Seq<char>) -> Seq<char> {
    account + ".listened"@
}

/// Marks as the text of their file: one line each.
pub open spec fn marks_file(marks: Seq<Seq<char>>) -> Seq<char>
    decreases marks.len(),
{
    if marks.len() == 0 {
        Seq::empty()
    } else {
        marks[0] + seq!['\n'] + marks_file(marks.subrange(1, marks.len() as int))
    }
}

/// The characters of each of some texts.
pub open spec fn mark_views(marks: Seq<String>) -> Seq<Seq<char>> {
    marks.map_values(|mark: String| mark@)
}

/// Writes marks, given as the texts of their ids.
pub fn save(marks: &Vec<String>) -> (text: String)
    ensures
        text@ == marks_file(mark_views(marks@)),
{
    let mut text: String = String::new();
    let mut i: usize = 0;
    let ghost all = mark_views(marks@);
    assert(all.subrange(0, all.len() as int) =~= all);
    assert(text@ + marks_file(all) =~= marks_file(all));
    while i < marks.len()
        invariant
            i <= marks@.len(),
            all == mark_views(marks@),
            text@ + marks_file(all.subrange(i as int, all.len() as int)) == marks_file(all),
        decreases marks.len() - i,
    {
        let ghost before = text@;
        let ghost rest = all.subrange(i as int, all.len() as int);
        let ghost next = all.subrange(i + 1, all.len() as int);
        assert(rest.subrange(1, rest.len() as int) =~= next);
        text.append(marks[i].as_str());
        text.push('\n');
        assert(text@ + marks_file(next) =~= before + (all[i as int] + seq!['\n'] + marks_file(
            next,
        )));
        i = i + 1;
    }
    assert(all.subrange(i as int, all.len() as int) =~= Seq::<Seq<char>>::empty());
    assert(text@ + Seq::<char>::empty() =~= text@);
    text
}

/// The rows of a marks file: its lines.
pub fn rows(text: &str) -> (out: Vec<String>)
    ensures
        mark_views(out@) == lines(text@),
{
    let read: Vec<Vec<char>> = lines_of(text);
    let out: Vec<String> = texts_of(&read);
    assert(mark_views(out@) =~= views(read@));
    out
}

/// The set of the marks whose lines parsed as ids.
pub fn load(parsed: &Vec<Option<Id>>) -> (marks: HashSet<Id>)
    ensures
        forall|id: Id| #[trigger] marks@.contains(id) <==> parsed@.contains(Some(id)),
{
    let mut marks: HashSet<Id> = HashSet::new();
    let mut i: usize = 0;
    while i < parsed.len()
        invariant
            i <= parsed@.len(),
            forall|id: Id|
                #[trigger] marks@.contains(id) <==> exists|j: int|
                    0 <= j < i && #[trigger] parsed@[j] == Some(id),
        decreases parsed.len() - i,
    {
        let ghost before = marks@;
        match parsed[i] {
            Some(id) => {
                marks.insert(id);
                assert forall|other: Id| #[trigger] marks@.contains(other) <==> exists|j: int|
                    0 <= j < i + 1 && #[trigger] parsed@[j] == Some(other) by {
                    if before.contains(other) {
                        let j = choose|j: int| 0 <= j < i && #[trigger] parsed@[j] == Some(other);
                        assert(parsed@[j] == Some(other));
                    }
                    if other == id {
                        assert(parsed@[i as int] == Some(other));
                    }
                }
            },
            None => {},
        }
        i = i + 1;
    }
    assert forall|id: Id| #[trigger] marks@.contains(id) <==> parsed@.contains(Some(id)) by {
        if parsed@.contains(Some(id)) {
            let j = choose|j: int| 0 <= j < parsed@.len() && parsed@[j] == Some(id);
            assert(parsed@[j] == Some(id));
        }
    }
    marks
}

/// What was written is what is read back, whatever the ids are written as, as long as no id holds
/// a line break.
pub proof fn law_the_marks_round_trip(marks: Seq<Seq<char>>)
    requires
        forall|i: int, j: int|
            0 <= i < marks.len() && 0 <= j < marks[i].len() ==> #[trigger] marks[i][j] != '\n'
                && marks[i][j] != '\r',
    ensures
        lines(marks_file(marks)) == marks,
    decreases marks.len(),
{
    if marks.len() == 0 {
        assert(marks =~= Seq::<Seq<char>>::empty());
    } else {
        let rest = marks.subrange(1, marks.len() as int);
        assert forall|i: int, j: int| 0 <= i < rest.len() && 0 <= j < rest[i].len() implies
            #[trigger] rest[i][j] != '\n' && rest[i][j] != '\r' by {
            assert(rest[i] == marks[i + 1]);
            assert(marks[i + 1][j] != '\n');
        }
        law_the_marks_round_trip(rest);
        let first = marks[0];
        assert forall|j: int| 0 <= j < first.len() implies #[trigger] first[j] != '\n' by {
            assert(marks[0][j] != '\n');
        }
        lemma_line(Seq::empty(), first, marks_file(rest));
        assert(Seq::<char>::empty() + first =~= first);
        if first.len() > 0 {
            assert(marks[0][first.len() - 1] != '\r');
        }
        assert(uncr(first) == first);
        assert(marks =~= seq![first] + rest);
    }
}

/// A directory of files, by their names, after one account's marks were written, in some order.
pub open spec fn saved(
    files: Map<Seq<char>, Seq<char>>,
    account: Id,
    marks: Seq<Id>,
    text: spec_fn(Id) -> Seq<char>,
) -> Map<Seq<char>, Seq<char>> {
    files.insert(marks_name(text(account)), marks_file(marks.map_values(text)))
}

/// Whether a mark is among what one account's file reads back as; no file is no mark.
pub open spec fn marked(
    files: Map<Seq<char>, Seq<char>>,
    account: Id,
    id: Id,
    text: spec_fn(Id) -> Seq<char>,
    parse: spec_fn(Seq<char>) -> Option<Id>,
) -> bool {
    let name = marks_name(text(account));
    files.contains_key(name) && lines(files[name]).map_values(parse).contains(Some(id))
}

/// Saved marks load as the same marks, whatever was saved before them, and what another account's
/// load as does not change. That holds of every way of writing ids that gives each its own single
/// word, which parses back as it.
pub proof fn law_saved_marks_load(
    files: Map<Seq<char>, Seq<char>>,
    account: Id,
    other: Id,
    marks: Seq<Id>,
    id: Id,
    text: spec_fn(Id) -> Seq<char>,
    parse: spec_fn(Seq<char>) -> Option<Id>,
)
    requires
        forall|id: Id| parse(#[trigger] text(id)) == Some(id) && one_word(text(id)),
    ensures
        marked(saved(files, account, marks, text), account, id, text, parse) <==> marks.contains(
            id,
        ),
        other != account ==> marked(saved(files, account, marks, text), other, id, text, parse)
            == marked(files, other, id, text, parse),
{
    let written = marks.map_values(text);
    assert forall|i: int, j: int| 0 <= i < written.len() && 0 <= j < written[i].len() implies
        #[trigger] written[i][j] != '\n' && written[i][j] != '\r' by {
        assert(one_word(text(marks[i])));
        assert(!blank(text(marks[i])[j]));
    }
    law_the_marks_round_trip(written);
    let read = written.map_values(parse);
    if marks.contains(id) {
        let i = choose|i: int| 0 <= i < marks.len() && marks[i] == id;
        assert(read[i] == parse(text(marks[i])));
        assert(read.contains(Some(id)));
    }
    if read.contains(Some(id)) {
        let i = choose|i: int| 0 <= i < read.len() && read[i] == Some(id);
        assert(read[i] == parse(text(marks[i])));
        assert(marks[i] == id);
    }
    if other != account {
        assert(parse(text(other)) != parse(text(account)));
        if marks_name(text(other)) == marks_name(text(account)) {
            let name = marks_name(text(account));
            let n = ".listened"@.len();
            assert(text(other) =~= name.take(name.len() - n));
            assert(text(account) =~= name.take(name.len() - n));
        }
    }
}

/// Marks one voice note listened or unlistened, and says whether that changed anything.
pub fn set_listened(marks: &mut HashSet<Id>, media_id: Id, listened: bool) -> (changed: bool)
    ensures
        changed == (old(marks)@.contains(media_id) != listened),
        final(marks)@ == (if listened {
            old(marks)@.insert(media_id)
        } else {
            old(marks)@.remove(media_id)
        }),
{
    if listened {
        marks.insert(media_id)
    } else {
        marks.remove(&media_id)
    }
}

/// A mark and its unmark leave what was there; either is settled by doing it once.
pub proof fn law_marks_are_settled(marks: Set<Id>, media_id: Id)
    ensures
        marks.insert(media_id).insert(media_id) == marks.insert(media_id),
        marks.remove(media_id).remove(media_id) == marks.remove(media_id),
        !marks.contains(media_id) ==> marks.insert(media_id).remove(media_id) == marks,
{
    assert(marks.insert(media_id).insert(media_id) =~= marks.insert(media_id));
    assert(marks.remove(media_id).remove(media_id) =~= marks.remove(media_id));
    if !marks.contains(media_id) {
        assert(marks.insert(media_id).remove(media_id) =~= marks);
    }
}

/// A mark is one line, and an account's marks lie in a file named by the account.
pub proof fn law_a_mark_is_one_line(account: Seq<char>, mark: Seq<char>, marks: Seq<Seq<char>>)
    ensures
        marks_name(account).take(account.len() as int) == account,
        marks_name(account).skip(account.len() as int) == ".listened"@,
        VOICE_LISTENED_DIR@ == "voice-listened"@,
        marks_file(seq![mark] + marks).take(mark.len() as int) == mark,
        marks_file(seq![mark] + marks)[mark.len() as int] == '\n',
        marks_file(seq![mark] + marks).skip(mark.len() as int + 1) == marks_file(marks),
{
    let all = seq![mark] + marks;
    assert(all.subrange(1, all.len() as int) =~= marks);
    assert(marks_name(account).take(account.len() as int) =~= account);
    assert(marks_name(account).skip(account.len() as int) =~= ".listened"@);
    assert(marks_file(all).take(mark.len() as int) =~= mark);
    assert(marks_file(all).skip(mark.len() as int + 1) =~= marks_file(marks));
}

} // verus!
