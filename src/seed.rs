//! The fixed seed of the catalog, stated row by row in key order, and the
//! check that a catalog holds exactly it.
use vstd::prelude::*;
use crate::catalog::{any_named, Database, Entry, Learnset, Membership, MoveStats, has_named};
use crate::nocase::{names_match, lemma_names_match_symm, lemma_names_match_trans};
use crate::catalog::lemma_compatible_members;

verus! {

/// The (id, name) pairs of entity rows, in order.
pub open spec fn entry_rows(rows: Seq<Entry>) -> Seq<(i64, Seq<char>)> {
    rows.map_values(|e: Entry| (e.id, e.name@))
}

/// The (creature, group) pairs of membership rows, in order.
pub open spec fn membership_rows(rows: Seq<Membership>) -> Seq<(i64, i64)> {
    rows.map_values(|m: Membership| (m.creature_id, m.group_id))
}

/// The (creature, move, method) triples of learnset rows, in order.
pub open spec fn learnset_rows(rows: Seq<Learnset>) -> Seq<(i64, i64, Seq<char>)> {
    rows.map_values(|l: Learnset| (l.creature_id, l.move_id, l.method@))
}

/// The (move, category, power, accuracy) rows of move attributes, in order.
pub open spec fn stats_rows(rows: Seq<MoveStats>) -> Seq<(i64, Seq<char>, Option<i64>, Option<i64>)> {
    rows.map_values(|m: MoveStats| (m.move_id, m.category@, m.power, m.accuracy))
}

/// The seeded creatures, by id.
pub open spec fn seed_creatures() -> Seq<(i64, Seq<char>)> {
    seq![
        (1, "Bulbasaur"@),
        (2, "Ivysaur"@),
        (3, "Venusaur"@),
        (4, "Charmander"@),
        (5, "Charmeleon"@),
        (6, "Charizard"@),
        (7, "Squirtle"@),
        (8, "Wartortle"@),
        (9, "Blastoise"@),
        (10, "Caterpie"@),
        (132, "Ditto"@),
        (150, "MewTwo"@),
    ]
}

/// The seeded egg groups, by id.
pub open spec fn seed_groups() -> Seq<(i64, Seq<char>)> {
    seq![(1, "Monster"@), (2, "Grass"@), (3, "Bug"@), (4, "Normal"@), (5, "Psychic"@)]
}

/// The seeded memberships, by creature and then group.
pub open spec fn seed_memberships() -> Seq<(i64, i64)> {
    seq![
        (1, 1),
        (1, 2),
        (2, 1),
        (2, 2),
        (3, 1),
        (3, 2),
        (4, 1),
        (5, 1),
        (6, 1),
        (7, 1),
        (8, 1),
        (9, 1),
        (10, 3),
        (132, 1),
        (132, 2),
        (132, 3),
        (132, 4),
        (132, 5),
    ]
}

/// The seeded moves, by id.
pub open spec fn seed_moves() -> Seq<(i64, Seq<char>)> {
    seq![
        (1, "Amnesia"@),
        (2, "Skull Bash"@),
        (3, "Dragon Dance"@),
        (4, "Fake Out"@),
        (5, "Haze"@),
        (6, "Mirror Coat"@),
    ]
}

/// The seeded move attributes, by move id.
pub open spec fn seed_move_stats() -> Seq<(i64, Seq<char>, Option<i64>, Option<i64>)> {
    seq![
        (1, "Status"@, None, None),
        (2, "Physical"@, Some(130), Some(100)),
        (3, "Status"@, None, None),
        (4, "Physical"@, Some(40), Some(100)),
        (5, "Status"@, None, None),
        (6, "Special"@, None, Some(100)),
    ]
}

/// The seeded learnsets, by creature and then move.
pub open spec fn seed_learnsets() -> Seq<(i64, i64, Seq<char>)> {
    seq![(1, 1, "egg"@), (1, 2, "egg"@), (4, 3, "egg"@), (7, 4, "egg"@), (7, 5, "egg"@)]
}

impl Database {
    /// Every table holds exactly the seed's rows, in key order.
    pub open spec fn holds_seed(&self) -> bool {
        &&& entry_rows(self.creatures@) == seed_creatures()
        &&& entry_rows(self.groups@) == seed_groups()
        &&& membership_rows(self.memberships@) == seed_memberships()
        &&& entry_rows(self.moves@) == seed_moves()
        &&& stats_rows(self.move_stats@) == seed_move_stats()
        &&& learnset_rows(self.learnsets@) == seed_learnsets()
    }
}

fn entry(id: i64, name: &str) -> (e: Entry)
    ensures
        e.id == id,
        e.name@ == name@,
{
    Entry { id, name: String::from_str(name) }
}

fn seed_creature_rows() -> (r: Vec<Entry>)
    ensures
        entry_rows(r@) == seed_creatures(),
{
    let r = vec![
        entry(1, "Bulbasaur"),
        entry(2, "Ivysaur"),
        entry(3, "Venusaur"),
        entry(4, "Charmander"),
        entry(5, "Charmeleon"),
        entry(6, "Charizard"),
        entry(7, "Squirtle"),
        entry(8, "Wartortle"),
        entry(9, "Blastoise"),
        entry(10, "Caterpie"),
        entry(132, "Ditto"),
        entry(150, "MewTwo"),
    ];
    assert(entry_rows(r@) =~= seed_creatures());
    r
}

fn seed_group_rows() -> (r: Vec<Entry>)
    ensures
        entry_rows(r@) == seed_groups(),
{
    let r = vec![
        entry(1, "Monster"),
        entry(2, "Grass"),
        entry(3, "Bug"),
        entry(4, "Normal"),
        entry(5, "Psychic"),
    ];
    assert(entry_rows(r@) =~= seed_groups());
    r
}

fn seed_move_rows() -> (r: Vec<Entry>)
    ensures
        entry_rows(r@) == seed_moves(),
{
    let r = vec![
        entry(1, "Amnesia"),
        entry(2, "Skull Bash"),
        entry(3, "Dragon Dance"),
        entry(4, "Fake Out"),
        entry(5, "Haze"),
        entry(6, "Mirror Coat"),
    ];
    assert(entry_rows(r@) =~= seed_moves());
    r
}

fn stats(move_id: i64, category: &str, power: Option<i64>, accuracy: Option<i64>) -> (m: MoveStats)
    ensures
        m.move_id == move_id,
        m.category@ == category@,
        m.power == power,
        m.accuracy == accuracy,
{
    MoveStats { move_id, category: String::from_str(category), power, accuracy }
}

fn seed_move_stats_rows() -> (r: Vec<MoveStats>)
    ensures
        stats_rows(r@) == seed_move_stats(),
{
    let r = vec![
        stats(1, "Status", None, None),
        stats(2, "Physical", Some(130), Some(100)),
        stats(3, "Status", None, None),
        stats(4, "Physical", Some(40), Some(100)),
        stats(5, "Status", None, None),
        stats(6, "Special", None, Some(100)),
    ];
    assert(stats_rows(r@) =~= seed_move_stats());
    r
}

fn link(creature_id: i64, group_id: i64) -> (m: Membership)
    ensures
        m.creature_id == creature_id,
        m.group_id == group_id,
{
    Membership { creature_id, group_id }
}

fn seed_membership_rows() -> (r: Vec<Membership>)
    ensures
        membership_rows(r@) == seed_memberships(),
{
    let r = vec![
        link(1, 1),
        link(1, 2),
        link(2, 1),
        link(2, 2),
        link(3, 1),
        link(3, 2),
        link(4, 1),
        link(5, 1),
        link(6, 1),
        link(7, 1),
        link(8, 1),
        link(9, 1),
        link(10, 3),
        link(132, 1),
        link(132, 2),
        link(132, 3),
        link(132, 4),
        link(132, 5),
    ];
    assert(membership_rows(r@) =~= seed_memberships());
    r
}

fn egg_move(creature_id: i64, move_id: i64) -> (l: Learnset)
    ensures
        l.creature_id == creature_id,
        l.move_id == move_id,
        l.method@ == "egg"@,
{
    Learnset { creature_id, move_id, method: String::from_str("egg") }
}

fn seed_learnset_rows() -> (r: Vec<Learnset>)
    ensures
        learnset_rows(r@) == seed_learnsets(),
{
    let r = vec![egg_move(1, 1), egg_move(1, 2), egg_move(4, 3), egg_move(7, 4), egg_move(7, 5)];
    assert(learnset_rows(r@) =~= seed_learnsets());
    r
}

/// Whether two entity tables hold the same (id, name) rows in the same order.
fn same_entries(a: &Vec<Entry>, b: &Vec<Entry>) -> (r: bool)
    ensures
        r == (entry_rows(a@) == entry_rows(b@)),
{
    if a.len() != b.len() {
        assert(entry_rows(a@).len() != entry_rows(b@).len());
        return false;
    }
    let mut i: usize = 0;
    while i < a.len()
        invariant
            a@.len() == b@.len(),
            i <= a@.len(),
            forall|k: int| 0 <= k < i ==> #[trigger] entry_rows(a@)[k] == entry_rows(b@)[k],
        decreases a.len() - i,
    {
        if a[i].id != b[i].id || a[i].name != b[i].name {
            assert(entry_rows(a@)[i as int] != entry_rows(b@)[i as int]);
            return false;
        }
        assert(entry_rows(a@)[i as int] == entry_rows(b@)[i as int]);
        i = i + 1;
    }
    assert(entry_rows(a@) =~= entry_rows(b@));
    true
}

/// Whether two membership tables hold the same pairs in the same order.
fn same_memberships(a: &Vec<Membership>, b: &Vec<Membership>) -> (r: bool)
    ensures
        r == (membership_rows(a@) == membership_rows(b@)),
{
    if a.len() != b.len() {
        assert(membership_rows(a@).len() != membership_rows(b@).len());
        return false;
    }
    let mut i: usize = 0;
    while i < a.len()
        invariant
            a@.len() == b@.len(),
            i <= a@.len(),
            forall|k: int| 0 <= k < i ==> #[trigger] membership_rows(a@)[k] == membership_rows(b@)[k],
        decreases a.len() - i,
    {
        if a[i].creature_id != b[i].creature_id || a[i].group_id != b[i].group_id {
            assert(membership_rows(a@)[i as int] != membership_rows(b@)[i as int]);
            return false;
        }
        assert(membership_rows(a@)[i as int] == membership_rows(b@)[i as int]);
        i = i + 1;
    }
    assert(membership_rows(a@) =~= membership_rows(b@));
    true
}

/// Whether two learnset tables hold the same triples in the same order.
fn same_learnsets(a: &Vec<Learnset>, b: &Vec<Learnset>) -> (r: bool)
    ensures
        r == (learnset_rows(a@) == learnset_rows(b@)),
{
    if a.len() != b.len() {
        assert(learnset_rows(a@).len() != learnset_rows(b@).len());
        return false;
    }
    let mut i: usize = 0;
    while i < a.len()
        invariant
            a@.len() == b@.len(),
            i <= a@.len(),
            forall|k: int| 0 <= k < i ==> #[trigger] learnset_rows(a@)[k] == learnset_rows(b@)[k],
        decreases a.len() - i,
    {
        if a[i].creature_id != b[i].creature_id || a[i].move_id != b[i].move_id || a[i].method
            != b[i].method {
            assert(learnset_rows(a@)[i as int] != learnset_rows(b@)[i as int]);
            return false;
        }
        assert(learnset_rows(a@)[i as int] == learnset_rows(b@)[i as int]);
        i = i + 1;
    }
    assert(learnset_rows(a@) =~= learnset_rows(b@));
    true
}

/// Whether two attribute tables hold the same rows in the same order.
fn same_move_stats(a: &Vec<MoveStats>, b: &Vec<MoveStats>) -> (r: bool)
    ensures
        r == (stats_rows(a@) == stats_rows(b@)),
{
    if a.len() != b.len() {
        assert(stats_rows(a@).len() != stats_rows(b@).len());
        return false;
    }
    let mut i: usize = 0;
    while i < a.len()
        invariant
            a@.len() == b@.len(),
            i <= a@.len(),
            forall|k: int| 0 <= k < i ==> #[trigger] stats_rows(a@)[k] == stats_rows(b@)[k],
        decreases a.len() - i,
    {
        if a[i].move_id != b[i].move_id || a[i].category != b[i].category || a[i].power
            != b[i].power || a[i].accuracy != b[i].accuracy {
            assert(stats_rows(a@)[i as int] != stats_rows(b@)[i as int]);
            return false;
        }
        assert(stats_rows(a@)[i as int] == stats_rows(b@)[i as int]);
        i = i + 1;
    }
    assert(stats_rows(a@) =~= stats_rows(b@));
    true
}

impl Database {
    /// Whether every table holds exactly the seed's rows, in key order.
    pub fn is_seeded(&self) -> (r: bool)
        ensures
            r == self.holds_seed(),
    {
        same_entries(&self.creatures, &seed_creature_rows()) && same_entries(
            &self.groups,
            &seed_group_rows(),
        ) && same_memberships(&self.memberships, &seed_membership_rows()) && same_entries(
            &self.moves,
            &seed_move_rows(),
        ) && same_move_stats(&self.move_stats, &seed_move_stats_rows()) && same_learnsets(&self.learnsets, &seed_learnset_rows())
    }
}

/// The membership table of the seeded catalog, as the laws below need it.
proof fn lemma_seed_membership_table(db: &Database)
    requires
        db.holds_seed(),
    ensures
        db.memberships@.len() == 18,
        forall|k: int|
            0 <= k < 18 ==> (#[trigger] db.memberships@[k].creature_id == 10 <==> k == 12),
        forall|k: int|
            0 <= k < 18 ==> (#[trigger] db.memberships@[k].group_id == 3 <==> (k == 12 || k == 15)),
        db.memberships@[12].creature_id == 10 && db.memberships@[12].group_id == 3,
        db.memberships@[15].creature_id == 132 && db.memberships@[15].group_id == 3,
{
    assert(membership_rows(db.memberships@).len() == 18);
    assert forall|k: int| 0 <= k < 18 implies (#[trigger] db.memberships@[k].creature_id == 10 <==> k == 12)
        && (db.memberships@[k].group_id == 3 <==> (k == 12 || k == 15)) by {
        assert(membership_rows(db.memberships@)[k] == seed_memberships()[k]);
    }
    assert(membership_rows(db.memberships@)[12] == seed_memberships()[12]);
    assert(membership_rows(db.memberships@)[15] == seed_memberships()[15]);
}

/// The creature table of the seeded catalog, as the laws below need it.
proof fn lemma_seed_creature_table(db: &Database)
    requires
        db.holds_seed(),
    ensures
        db.creatures@.len() == 12,
        forall|c: int| 0 <= c < 12 ==> (#[trigger] db.creatures@[c].id == 10 <==> c == 9),
        forall|c: int| 0 <= c < 12 ==> (#[trigger] db.creatures@[c].id == 132 <==> c == 10),
        forall|c: int| 0 <= c < 12 ==> #[trigger] db.creatures@[c].name@ == seed_creatures()[c].1,
        db.creatures@[9].id == 10 && db.creatures@[9].name@ == "Caterpie"@,
        db.creatures@[10].id == 132 && db.creatures@[10].name@ == "Ditto"@,
{
    assert(entry_rows(db.creatures@).len() == 12);
    assert forall|c: int| 0 <= c < 12 implies (#[trigger] db.creatures@[c].id == 10 <==> c == 9) && (
    db.creatures@[c].id == 132 <==> c == 10) && db.creatures@[c].name@ == seed_creatures()[c].1 by {
        assert(entry_rows(db.creatures@)[c] == seed_creatures()[c]);
    }
    assert(entry_rows(db.creatures@)[9] == seed_creatures()[9]);
    assert(entry_rows(db.creatures@)[10] == seed_creatures()[10]);
}

/// In the seeded catalog a name is found exactly when it is, case aside, one
/// of the seeded creature names.
pub proof fn lemma_seeded_lookup(db: &Database, n: Seq<char>)
    requires
        db.holds_seed(),
    ensures
        any_named(db.creatures@, n) <==> exists|i: int|
            0 <= i < seed_creatures().len() && names_match(#[trigger] seed_creatures()[i].1, n),
{
    lemma_seed_creature_table(db);
    assert(seed_creatures().len() == 12);
    if any_named(db.creatures@, n) {
        let i = choose|i: int| 0 <= i < db.creatures@.len() && names_match(#[trigger] db.creatures@[i].name@, n);
        assert(names_match(seed_creatures()[i].1, n));
    }
    if exists|i: int| 0 <= i < seed_creatures().len() && names_match(#[trigger] seed_creatures()[i].1, n) {
        let i = choose|i: int| 0 <= i < seed_creatures().len() && names_match(#[trigger] seed_creatures()[i].1, n);
        assert(db.creatures@[i].name@ == seed_creatures()[i].1);
        assert(names_match(db.creatures@[i].name@, n));
    }
}

/// In a sound catalog that holds the seed, only Caterpie is named `n` when
/// `n` is Caterpie's name in any casing.
proof fn lemma_seeded_caterpie_is_unique(db: &Database, n: Seq<char>, cid: i64)
    requires
        db.wf(),
        db.holds_seed(),
        names_match(n, "Caterpie"@),
        has_named(db.creatures@, cid, n),
    ensures
        cid == 10,
{
    lemma_seed_creature_table(db);
    let q = choose|q: int|
        0 <= q < db.creatures@.len() && #[trigger] db.creatures@[q].id == cid && names_match(
            db.creatures@[q].name@,
            n,
        );
    lemma_names_match_trans(db.creatures@[q].name@, n, db.creatures@[9].name@);
    if q < 9 {
        assert(crate::catalog::distinct_entries(db.creatures@[q], db.creatures@[9]));
    } else if q > 9 {
        lemma_names_match_symm(db.creatures@[q].name@, db.creatures@[9].name@);
        assert(crate::catalog::distinct_entries(db.creatures@[9], db.creatures@[q]));
    }
}

/// In the seeded catalog the partners of Caterpie, under any casing of its
/// name, are Caterpie itself and Ditto: the members of the Bug group, and no
/// creature outside it.
pub proof fn lemma_seeded_caterpie_partners(db: &Database, n: Seq<char>, x: Seq<char>)
    requires
        db.wf(),
        db.holds_seed(),
        names_match(n, "Caterpie"@),
    ensures
        db.compatible_spec(n).contains(x) <==> (x == "Caterpie"@ || x == "Ditto"@),
{
    lemma_seed_creature_table(db);
    lemma_seed_membership_table(db);
    lemma_names_match_symm(n, "Caterpie"@);
    assert(has_named(db.creatures@, 10, n)) by {
        assert(db.creatures@[9].id == 10);
    }
    assert(db.group_has_named(3, n)) by {
        assert(db.memberships@[12].group_id == 3);
    }
    lemma_compatible_members(db, n, x);
    if db.compatible_spec(n).contains(x) {
        let c = choose|c: int|
            0 <= c < db.creatures@.len() && #[trigger] db.creatures@[c].name@ == x && db.shares_group(
                db.creatures@[c].id,
                n,
            );
        let id = db.creatures@[c].id;
        let i = choose|i: int|
            0 <= i < db.memberships@.len() && #[trigger] db.memberships@[i].creature_id == id
                && db.group_has_named(db.memberships@[i].group_id, n);
        let g = db.memberships@[i].group_id;
        let j = choose|j: int|
            0 <= j < db.memberships@.len() && #[trigger] db.memberships@[j].group_id == g
                && has_named(db.creatures@, db.memberships@[j].creature_id, n);
        lemma_seeded_caterpie_is_unique(db, n, db.memberships@[j].creature_id);
        assert(j == 12);
        assert(g == 3);
        assert(i == 12 || i == 15);
        assert(id == 10 || id == 132);
        assert(c == 9 || c == 10);
    }
    if x == "Caterpie"@ {
        assert(db.shares_group(db.creatures@[9].id, n)) by {
            assert(db.memberships@[12].creature_id == 10);
        }
        assert(db.creatures@[9].name@ == x);
    }
    if x == "Ditto"@ {
        assert(db.shares_group(db.creatures@[10].id, n)) by {
            assert(db.memberships@[15].creature_id == 132);
        }
        assert(db.creatures@[10].name@ == x);
    }
}

} // verus!
