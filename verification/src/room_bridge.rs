//! The room bridge, persisted: room id to conversation id, surviving restarts.
//!
//! The wire names a room's conversation in exactly one moment, the join's answer. A process that
//! held the pair only in memory would start every session without it, so the pairs are written
//! beside the vault, one file per account, one line per pair.

use vstd::prelude::*;

use crate::rows::{lemma_line, lemma_word, lines, lines_of, one_word, uncr, views, words, words_of};
use crate::text::{blank, chars_of, join, text_of};
use crate::wire::Id;

verus! {

/// The directory beside the vault that holds the bridges.
pub const ROOM_BRIDGES_DIR: &'static str = "room-bridges";

/// The bridge store: one file per account, beside the vault.
pub struct RoomBridgeStore {
    /// The directory that holds the bridges.
    pub dir: String,
}

impl RoomBridgeStore {
    /// The store beside a vault, whose directory is given; a vault without one lives here.
    pub fn beside(parent: Option<&str>) -> (store: Self)
        ensures
            store.dir@ == under(beside_of(parent), ROOM_BRIDGES_DIR@),
    {
        RoomBridgeStore { dir: directory(parent, ROOM_BRIDGES_DIR) }
    }

    /// The name of the directory that holds the bridges.
    pub fn dir_name() -> (name: String)
        ensures
            name@ == ROOM_BRIDGES_DIR@,
    {
        ROOM_BRIDGES_DIR.to_owned()
    }

    /// The file that holds one account's bridge, named by the text of the account's id.
    pub fn path(account: &str) -> (name: String)
        ensures
            name@ == bridge_name(account@),
    {
        join(account, ".rooms")
    }
}

/// The file that holds the bridge of the account whose id is written like this.
pub open spec fn bridge_name(account: Seq<char>) -> Seq<char> {
    account + ".rooms"@
}

/// The directory that a vault's parent stands for.
pub open spec fn beside_of(parent: Option<&str>) -> Seq<char> {
    match parent {
        Some(dir) => dir@,
        None => "."@,
    }
}

/// The path of a name under a directory. The empty directory is where the process runs.
pub open spec fn under(dir: Seq<char>, name: Seq<char>) -> Seq<char> {
    if dir.len() == 0 {
        name
    } else if dir.last() == '/' {
        dir + name
    } else {
        dir + "/"@ + name
    }
}

/// The path of a store's directory beside a vault, whose directory is given.
pub fn directory(parent: Option<&str>, name: &str) -> (dir: String)
    ensures
        dir@ == under(beside_of(parent), name@),
{
    let beside: &str = match parent {
        Some(dir) => dir,
        None => ".",
    };
    let chars: Vec<char> = chars_of(beside);
    let n: usize = chars.len();
    if n == 0 {
        return name.to_owned();
    }
    if chars[n - 1] == '/' {
        join(beside, name)
    } else {
        let open: String = join(beside, "/");
        join(open.as_str(), name)
    }
}

/// One pair as its line.
pub open spec fn bridge_line(pair: (Seq<char>, Seq<char>)) -> Seq<char> {
    pair.0 + seq![' '] + pair.1 + seq!['\n']
}

/// A bridge as the text of its file.
pub open spec fn bridge_file(pairs: Seq<(Seq<char>, Seq<char>)>) -> Seq<char>
    decreases pairs.len(),
{
    if pairs.len() == 0 {
        Seq::empty()
    } else {
        bridge_line(pairs[0]) + bridge_file(pairs.subrange(1, pairs.len() as int))
    }
}

/// Writes a bridge, whose pairs are given as the texts of their ids.
pub fn save(pairs: &Vec<(String, String)>) -> (text: String)
    ensures
        text@ == bridge_file(pair_views(pairs@)),
{
    let mut text: String = String::new();
    let mut i: usize = 0;
    let ghost all = pair_views(pairs@);
    assert(all.subrange(0, all.len() as int) =~= all);
    assert(text@ + bridge_file(all) =~= bridge_file(all));
    while i < pairs.len()
        invariant
            i <= pairs@.len(),
            all == pair_views(pairs@),
            text@ + bridge_file(all.subrange(i as int, all.len() as int)) == bridge_file(all),
        decreases pairs.len() - i,
    {
        let ghost before = text@;
        let ghost rest = all.subrange(i as int, all.len() as int);
        let ghost next = all.subrange(i + 1, all.len() as int);
        assert(rest.subrange(1, rest.len() as int) =~= next);
        text.append(pairs[i].0.as_str());
        text.push(' ');
        text.append(pairs[i].1.as_str());
        text.push('\n');
        assert(text@ =~= before + bridge_line(all[i as int]));
        assert(text@ + bridge_file(next) =~= before + (bridge_line(all[i as int]) + bridge_file(
            next,
        )));
        i = i + 1;
    }
    assert(all.subrange(i as int, all.len() as int) =~= Seq::<(Seq<char>, Seq<char>)>::empty());
    assert(text@ + Seq::<char>::empty() =~= text@);
    text
}

/// The pairs of words that some lines hold: a line that is not two words is skipped.
pub open spec fn pairs_in(lines: Seq<Seq<char>>) -> Seq<(Seq<char>, Seq<char>)>
    decreases lines.len(),
{
    if lines.len() == 0 {
        Seq::empty()
    } else {
        let before = pairs_in(lines.drop_last());
        let found = words(lines.last());
        if found.len() == 2 {
            before.push((found[0], found[1]))
        } else {
            before
        }
    }
}

/// The pairs as characters.
pub open spec fn pair_views(pairs: Seq<(String, String)>) -> Seq<(Seq<char>, Seq<char>)> {
    pairs.map_values(|pair: (String, String)| (pair.0@, pair.1@))
}

/// Reads a bridge's file back, as the texts of its ids. A line that is not two words is skipped.
pub fn rows(text: &str) -> (pairs: Vec<(String, String)>)
    ensures
        pair_views(pairs@) == pairs_in(lines(text@)),
{
    let read: Vec<Vec<char>> = lines_of(text);
    let ghost all = views(read@);
    let mut pairs: Vec<(String, String)> = Vec::new();
    let mut i: usize = 0;
    assert(all.take(0) =~= Seq::<Seq<char>>::empty());
    assert(pair_views(pairs@) =~= pairs_in(all.take(0)));
    while i < read.len()
        invariant
            i <= read@.len(),
            all == views(read@),
            pair_views(pairs@) == pairs_in(all.take(i as int)),
        decreases read.len() - i,
    {
        assert(all.take(i + 1).drop_last() =~= all.take(i as int));
        assert(all.take(i + 1).last() == read@[i as int]@);
        let found: Vec<Vec<char>> = words_of(&read[i]);
        let ghost before = pair_views(pairs@);
        assert(views(found@).len() == found@.len());
        if found.len() == 2 {
            assert(views(found@)[0] == found@[0]@ && views(found@)[1] == found@[1]@);
            pairs.push((text_of(&found[0]), text_of(&found[1])));
            assert(pair_views(pairs@) =~= before.push((found@[0]@, found@[1]@)));
        }
        i = i + 1;
    }
    assert(all.take(all.len() as int) =~= all);
    pairs
}

/// The rows whose both halves are ids.
pub open spec fn named(rows: Seq<(Option<Id>, Option<Id>)>) -> Seq<(Id, Id)>
    decreases rows.len(),
{
    if rows.len() == 0 {
        Seq::empty()
    } else {
        match rows.last() {
            (Some(room), Some(conversation)) => named(rows.drop_last()).push((room, conversation)),
            _ => named(rows.drop_last()),
        }
    }
}

/// Keeps the rows whose both halves parsed as ids, in order.
pub fn load(rows: &Vec<(Option<Id>, Option<Id>)>) -> (pairs: Vec<(Id, Id)>)
    ensures
        pairs@ == named(rows@),
{
    let mut pairs: Vec<(Id, Id)> = Vec::new();
    let mut i: usize = 0;
    assert(rows@.take(0) =~= Seq::<(Option<Id>, Option<Id>)>::empty());
    while i < rows.len()
        invariant
            i <= rows@.len(),
            pairs@ == named(rows@.take(i as int)),
        decreases rows.len() - i,
    {
        assert(rows@.take(i + 1).drop_last() =~= rows@.take(i as int));
        match rows[i] {
            (Some(room), Some(conversation)) => {
                pairs.push((room, conversation));
            },
            _ => {},
        }
        i = i + 1;
    }
    assert(rows@.take(rows@.len() as int) =~= rows@);
    pairs
}

/// What was written is what is read back, in the same pairs and the same order, whatever the ids
/// are written as, as long as each is one word.
pub proof fn law_the_bridge_round_trips(pairs: Seq<(Seq<char>, Seq<char>)>)
    requires
        forall|i: int|
            0 <= i < pairs.len() ==> one_word((#[trigger] pairs[i]).0) && one_word(pairs[i].1),
    ensures
        pairs_in(lines(bridge_file(pairs))) == pairs,
    decreases pairs.len(),
{
    if pairs.len() == 0 {
        assert(pairs =~= Seq::<(Seq<char>, Seq<char>)>::empty());
    } else {
        let rest = pairs.subrange(1, pairs.len() as int);
        assert forall|i: int| 0 <= i < rest.len() implies one_word((#[trigger] rest[i]).0)
            && one_word(rest[i].1) by {
            assert(rest[i] == pairs[i + 1]);
        }
        law_the_bridge_round_trips(rest);
        let a = pairs[0].0;
        let b = pairs[0].1;
        assert(one_word(a) && one_word(b));
        let row = a + seq![' '] + b;
        assert forall|i: int| 0 <= i < row.len() implies #[trigger] row[i] != '\n' && (i < a.len()
            ==> row[i] == a[i]) by {
            if i < a.len() {
                assert(!blank(a[i]));
            } else if i > a.len() {
                assert(row[i] == b[i - a.len() - 1]);
                assert(!blank(b[i - a.len() - 1]));
            }
        }
        lemma_line(Seq::empty(), row, bridge_file(rest));
        assert(bridge_file(pairs) =~= row + seq!['\n'] + bridge_file(rest));
        assert(Seq::<char>::empty() + row =~= row);
        assert(row.last() == b.last());
        assert(!blank(b[b.len() - 1]));
        assert(uncr(row) == row);
        lemma_word(Seq::empty(), a, b);
        lemma_word(Seq::empty(), b, Seq::empty());
        assert(Seq::<char>::empty() + a =~= a);
        assert(Seq::<char>::empty() + b =~= b);
        assert(words(row) == seq![a, b]) by {
            assert(seq![a] + seq![b] =~= seq![a, b]);
        }
        let all = lines(bridge_file(pairs));
        assert(all == seq![row] + lines(bridge_file(rest)));
        lemma_pairs_from_the_front(row, lines(bridge_file(rest)));
        assert(pairs =~= seq![(a, b)] + rest);
    }
}

proof fn lemma_pairs_from_the_front(first: Seq<char>, rest: Seq<Seq<char>>)
    requires
        words(first).len() == 2,
    ensures
        pairs_in(seq![first] + rest) == seq![(words(first)[0], words(first)[1])] + pairs_in(rest),
    decreases rest.len(),
{
    let all = seq![first] + rest;
    if rest.len() == 0 {
        assert(all =~= seq![first]);
        assert(all.drop_last() =~= Seq::<Seq<char>>::empty());
        assert(pairs_in(all.drop_last()) =~= Seq::<(Seq<char>, Seq<char>)>::empty());
        assert(all.last() == first);
        assert(pairs_in(all) =~= seq![(words(first)[0], words(first)[1])]);
        assert(pairs_in(all) + pairs_in(rest) =~= pairs_in(all));
    } else {
        lemma_pairs_from_the_front(first, rest.drop_last());
        assert(all.drop_last() =~= seq![first] + rest.drop_last());
        assert(all.last() == rest.last());
        let head = seq![(words(first)[0], words(first)[1])];
        let found = words(rest.last());
        if found.len() == 2 {
            assert(pairs_in(all) =~= head + pairs_in(rest.drop_last()).push((found[0], found[1])));
        }
    }
}

/// Bridges as the texts of their ids.
pub open spec fn texts(
    bridges: Seq<(Id, Id)>,
    text: spec_fn(Id) -> Seq<char>,
) -> Seq<(Seq<char>, Seq<char>)> {
    bridges.map_values(|pair: (Id, Id)| (text(pair.0), text(pair.1)))
}

/// Pairs of texts as the ids they parse as.
pub open spec fn parsed(
    pairs: Seq<(Seq<char>, Seq<char>)>,
    parse: spec_fn(Seq<char>) -> Option<Id>,
) -> Seq<(Option<Id>, Option<Id>)> {
    pairs.map_values(|pair: (Seq<char>, Seq<char>)| (parse(pair.0), parse(pair.1)))
}

/// A directory of files, by their names, after one account's bridge was written.
pub open spec fn saved(
    files: Map<Seq<char>, Seq<char>>,
    account: Id,
    bridges: Seq<(Id, Id)>,
    text: spec_fn(Id) -> Seq<char>,
) -> Map<Seq<char>, Seq<char>> {
    files.insert(bridge_name(text(account)), bridge_file(texts(bridges, text)))
}

/// What one account's bridge reads back as; no file is no bridge.
pub open spec fn loaded(
    files: Map<Seq<char>, Seq<char>>,
    account: Id,
    text: spec_fn(Id) -> Seq<char>,
    parse: spec_fn(Seq<char>) -> Option<Id>,
) -> Seq<(Id, Id)> {
    let name = bridge_name(text(account));
    if files.contains_key(name) {
        named(parsed(pairs_in(lines(files[name])), parse))
    } else {
        Seq::empty()
    }
}

/// A saved bridge loads as the same ids, in the same order and as often, whatever was saved before
/// it, and what another account's bridge loads as does not change. That holds of every way of
/// writing ids that gives each its own single word, which parses back as it.
pub proof fn law_a_saved_bridge_loads(
    files: Map<Seq<char>, Seq<char>>,
    account: Id,
    other: Id,
    bridges: Seq<(Id, Id)>,
    text: spec_fn(Id) -> Seq<char>,
    parse: spec_fn(Seq<char>) -> Option<Id>,
)
    requires
        forall|id: Id| parse(#[trigger] text(id)) == Some(id) && one_word(text(id)),
    ensures
        loaded(saved(files, account, bridges, text), account, text, parse) == bridges,
        other != account ==> loaded(saved(files, account, bridges, text), other, text, parse)
            == loaded(files, other, text, parse),
{
    law_the_bridge_round_trips(texts(bridges, text));
    lemma_parsed_back(bridges, text, parse);
    if other != account {
        assert(parse(text(other)) != parse(text(account)));
        if bridge_name(text(other)) == bridge_name(text(account)) {
            law_accounts_do_not_share_a_file(text(other), text(account));
        }
    }
}

proof fn lemma_parsed_back(
    bridges: Seq<(Id, Id)>,
    text: spec_fn(Id) -> Seq<char>,
    parse: spec_fn(Seq<char>) -> Option<Id>,
)
    requires
        forall|id: Id| parse(#[trigger] text(id)) == Some(id),
    ensures
        named(parsed(texts(bridges, text), parse)) == bridges,
    decreases bridges.len(),
{
    let rows = parsed(texts(bridges, text), parse);
    if bridges.len() == 0 {
        assert(named(rows) =~= bridges);
    } else {
        let before = bridges.drop_last();
        lemma_parsed_back(before, text, parse);
        assert(rows.drop_last() =~= parsed(texts(before, text), parse));
        assert(rows.last() == (Some(bridges.last().0), Some(bridges.last().1)));
        assert(named(rows) =~= bridges);
    }
}

/// Two accounts never share a file: their ids are written differently, so are their files.
pub proof fn law_accounts_do_not_share_a_file(one: Seq<char>, other: Seq<char>)
    requires
        bridge_name(one) == bridge_name(other),
    ensures
        one == other,
{
    let n = ".rooms"@.len();
    assert(one =~= bridge_name(one).take(bridge_name(one).len() - n));
    assert(other =~= bridge_name(other).take(bridge_name(other).len() - n));
}

/// A bridge without pairs wipes the file, no other does, and a wiped file reads back without pairs.
pub proof fn law_an_empty_bridge_wipes_the_file(pairs: Seq<(Seq<char>, Seq<char>)>)
    ensures
        bridge_file(pairs).len() == 0 <==> pairs.len() == 0,
        bridge_file(pairs).len() == 0 ==> pairs_in(lines(bridge_file(pairs))) == Seq::<
            (Seq<char>, Seq<char>),
        >::empty(),
{
    if bridge_file(pairs).len() == 0 {
        assert(bridge_file(pairs) =~= Seq::<char>::empty());
    }
}

/// A file under a directory keeps its name behind the directory's own path, with one separator
/// between the two.
pub proof fn law_a_path_ends_in_its_name(dir: Seq<char>, name: Seq<char>)
    ensures
        dir.len() == 0 ==> under(dir, name) == name,
        dir.len() > 0 ==> {
            let path = under(dir, name);
            let at = path.len() - name.len();
            &&& path.skip(at) == name
            &&& path.take(dir.len() as int) == dir
            &&& path[at - 1] == '/'
            &&& dir.last() == '/' ==> at == dir.len()
            &&& dir.last() != '/' ==> at == dir.len() + 1
        },
{
    reveal_strlit("/");
    if dir.len() > 0 {
        let path = under(dir, name);
        let at = path.len() - name.len();
        assert(path.skip(at) =~= name);
        assert(path.take(dir.len() as int) =~= dir);
    }
}

/// An account's bridge lies in a file named by the account, and a vault without a directory lies
/// where the process runs.
pub proof fn law_a_bridge_file_is_named_by_its_account(account: Seq<char>, dir: &str)
    ensures
        bridge_name(account).take(account.len() as int) == account,
        bridge_name(account).skip(account.len() as int) == ".rooms"@,
        beside_of(Some(dir)) == dir@,
        beside_of(None) == "."@,
        ROOM_BRIDGES_DIR@ == "room-bridges"@,
{
    assert(bridge_name(account).take(account.len() as int) =~= account);
    assert(bridge_name(account).skip(account.len() as int) =~= ".rooms"@);
}

/// A pair is one line: the room, a space, and the conversation that it leads to.
pub proof fn law_a_pair_is_one_line(
    room: Seq<char>,
    conversation: Seq<char>,
    pairs: Seq<(Seq<char>, Seq<char>)>,
)
    ensures
        ({
            let file = bridge_file(seq![(room, conversation)] + pairs);
            let at = room.len() as int + 1 + conversation.len() as int;
            &&& file.take(room.len() as int) == room
            &&& file[room.len() as int] == ' '
            &&& file.subrange(room.len() as int + 1, at) == conversation
            &&& file[at] == '\n'
            &&& file.skip(at + 1) == bridge_file(pairs)
        }),
{
    let all = seq![(room, conversation)] + pairs;
    let file = bridge_file(all);
    let at = room.len() as int + 1 + conversation.len() as int;
    assert(all.subrange(1, all.len() as int) =~= pairs);
    assert(file.take(room.len() as int) =~= room);
    assert(file.subrange(room.len() as int + 1, at) =~= conversation);
    assert(file.skip(at + 1) =~= bridge_file(pairs));
}

/// Exactly the rows whose both halves are ids are loaded, each as the pair it stands for.
pub proof fn law_whole_rows_are_loaded(rows: Seq<(Option<Id>, Option<Id>)>, room: Id, conversation: Id)
    ensures
        named(rows).contains((room, conversation)) <==> rows.contains(
            (Some(room), Some(conversation)),
        ),
    decreases rows.len(),
{
    if rows.len() > 0 {
        let front = rows.drop_last();
        law_whole_rows_are_loaded(front, room, conversation);
        let before = named(front);
        let all = named(rows);
        let pair = (room, conversation);
        let row = (Some(room), Some(conversation));
        if before.contains(pair) {
            let k = choose|k: int| 0 <= k < before.len() && before[k] == pair;
            assert(all[k] == pair);
        }
        if front.contains(row) {
            let k = choose|k: int| 0 <= k < front.len() && front[k] == row;
            assert(rows[k] == row);
        }
        if rows.last() == row {
            assert(all[before.len() as int] == pair);
            assert(rows[rows.len() - 1] == row);
        }
        if rows.contains(row) {
            let k = choose|k: int| 0 <= k < rows.len() && rows[k] == row;
            if k < front.len() {
                assert(front[k] == row);
            }
        }
        if all.contains(pair) {
            let k = choose|k: int| 0 <= k < all.len() && all[k] == pair;
            if k < before.len() {
                assert(before[k] == pair);
            }
        }
    }
}

/// A line is read where it is exactly two words, as the first and the second.
pub proof fn law_a_line_of_two_words_is_a_pair(lines: Seq<Seq<char>>, line: Seq<char>)
    ensures
        words(line).len() == 2 ==> pairs_in(lines.push(line)) == pairs_in(lines).push(
            (words(line)[0], words(line)[1]),
        ),
        words(line).len() != 2 ==> pairs_in(lines.push(line)) == pairs_in(lines),
{
    assert(lines.push(line).drop_last() =~= lines);
}

} // verus!
