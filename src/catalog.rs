//! The catalog: creatures, egg groups and moves, and the two association
//! tables that link creatures to them. Every lookup goes by name, ignoring
//! the case of ASCII letters.
use vstd::prelude::*;
use crate::nocase::{names_match, name_matches};

verus! {

/// A row of an entity table: a creature, an egg group or a move.
pub struct Entry {
    pub id: i64,
    pub name: String,
}

/// A creature's membership in an egg group.
pub struct Membership {
    pub creature_id: i64,
    pub group_id: i64,
}

/// A move that a creature learns, and how it learns it.
pub struct Learnset {
    pub creature_id: i64,
    pub move_id: i64,
    pub method: String,
}

/// The battle attributes of a move.
pub struct MoveStats {
    pub move_id: i64,
    /// One of Status, Physical and Special.
    pub category: String,
    pub power: Option<i64>,
    pub accuracy: Option<i64>,
}

/// The whole catalog, one vector per table, rows in table order.
/// `move_stats[i]` describes `moves[i]`.
pub struct Database {
    pub creatures: Vec<Entry>,
    pub groups: Vec<Entry>,
    pub memberships: Vec<Membership>,
    pub moves: Vec<Entry>,
    pub move_stats: Vec<MoveStats>,
    pub learnsets: Vec<Learnset>,
}

/// The text of each string, in order.
pub open spec fn strs(v: Seq<String>) -> Seq<Seq<char>> {
    v.map_values(|s: String| s@)
}

/// The acquisition tag, compared exactly, of a move that passes to offspring.
pub open spec fn egg_tag() -> Seq<char> {
    seq!['e', 'g', 'g']
}

/// Some row is named `n`.
pub open spec fn any_named(rows: Seq<Entry>, n: Seq<char>) -> bool {
    exists|i: int| 0 <= i < rows.len() && names_match(#[trigger] rows[i].name@, n)
}

/// Some row has id `id` and is named `n`.
pub open spec fn has_named(rows: Seq<Entry>, id: i64, n: Seq<char>) -> bool {
    exists|i: int| 0 <= i < rows.len() && #[trigger] rows[i].id == id && names_match(rows[i].name@, n)
}

/// The names of the first `k` rows whose id is `id`, in row order.
pub open spec fn names_with_id(rows: Seq<Entry>, id: i64, k: int) -> Seq<Seq<char>>
    decreases k,
{
    if k <= 0 {
        seq![]
    } else {
        names_with_id(rows, id, k - 1) + if rows[k - 1].id == id {
            seq![rows[k - 1].name@]
        } else {
            seq![]
        }
    }
}

impl Database {
    /// Group names that the first `k` membership rows give the creature named `n`.
    pub open spec fn groups_upto(&self, n: Seq<char>, k: int) -> Seq<Seq<char>>
        decreases k,
    {
        if k <= 0 {
            seq![]
        } else {
            let m = self.memberships@[k - 1];
            self.groups_upto(n, k - 1) + if has_named(self.creatures@, m.creature_id, n) {
                names_with_id(self.groups@, m.group_id, self.groups@.len() as int)
            } else {
                seq![]
            }
        }
    }

    /// The egg groups of the creature named `n`, joined in membership order.
    pub open spec fn groups_spec(&self, n: Seq<char>) -> Seq<Seq<char>> {
        self.groups_upto(n, self.memberships@.len() as int)
    }

    /// Egg moves that the first `k` learnset rows give the creature named `n`.
    pub open spec fn egg_moves_upto(&self, n: Seq<char>, k: int) -> Seq<Seq<char>>
        decreases k,
    {
        if k <= 0 {
            seq![]
        } else {
            let l = self.learnsets@[k - 1];
            self.egg_moves_upto(n, k - 1) + if has_named(self.creatures@, l.creature_id, n)
                && l.method@ == egg_tag() {
                names_with_id(self.moves@, l.move_id, self.moves@.len() as int)
            } else {
                seq![]
            }
        }
    }

    /// The egg moves of the creature named `n`, joined in learnset order.
    pub open spec fn egg_moves_spec(&self, n: Seq<char>) -> Seq<Seq<char>> {
        self.egg_moves_upto(n, self.learnsets@.len() as int)
    }

    /// Group `g` has a member named `n`.
    pub open spec fn group_has_named(&self, g: i64, n: Seq<char>) -> bool {
        exists|j: int|
            0 <= j < self.memberships@.len() && #[trigger] self.memberships@[j].group_id == g
                && has_named(self.creatures@, self.memberships@[j].creature_id, n)
    }

    /// The creature with id `id` shares an egg group with the creature named `n`.
    pub open spec fn shares_group(&self, id: i64, n: Seq<char>) -> bool {
        exists|i: int|
            0 <= i < self.memberships@.len() && #[trigger] self.memberships@[i].creature_id == id
                && self.group_has_named(self.memberships@[i].group_id, n)
    }

    /// Names of the first `k` creatures that share a group with the one named `n`.
    pub open spec fn compatible_upto(&self, n: Seq<char>, k: int) -> Seq<Seq<char>>
        decreases k,
    {
        if k <= 0 {
            seq![]
        } else {
            let c = self.creatures@[k - 1];
            self.compatible_upto(n, k - 1) + if self.shares_group(c.id, n) {
                seq![c.name@]
            } else {
                seq![]
            }
        }
    }

    /// Every creature that shares at least one egg group with the one named `n`,
    /// each once, in creature order.
    pub open spec fn compatible_spec(&self, n: Seq<char>) -> Seq<Seq<char>> {
        self.compatible_upto(n, self.creatures@.len() as int)
    }
}

/// A move category the catalog knows.
pub open spec fn is_category(c: Seq<char>) -> bool {
    c == "Status"@ || c == "Physical"@ || c == "Special"@
}

/// A known category, and a power and an accuracy that are positive when present.
pub open spec fn stats_ok(s: MoveStats) -> bool {
    &&& is_category(s.category@)
    &&& (s.power matches Some(p) ==> p > 0)
    &&& (s.accuracy matches Some(a) ==> a > 0)
}

/// Some row has id `id`.
pub open spec fn has_id(rows: Seq<Entry>, id: i64) -> bool {
    exists|i: int| 0 <= i < rows.len() && #[trigger] rows[i].id == id
}

/// Two rows of one entity table differ in id and in name, case aside.
pub open spec fn distinct_entries(a: Entry, b: Entry) -> bool {
    a.id != b.id && !names_match(a.name@, b.name@)
}

/// Ids are positive and unique, names unique case aside.
pub open spec fn entries_wf(rows: Seq<Entry>) -> bool {
    &&& forall|i: int| 0 <= i < rows.len() ==> #[trigger] rows[i].id > 0
    &&& forall|i: int, j: int|
        0 <= i < j < rows.len() ==> #[trigger] distinct_entries(rows[i], rows[j])
}

/// Two membership rows link different pairs.
pub open spec fn distinct_memberships(a: Membership, b: Membership) -> bool {
    a.creature_id != b.creature_id || a.group_id != b.group_id
}

/// Two learnset rows link different pairs.
pub open spec fn distinct_learnsets(a: Learnset, b: Learnset) -> bool {
    a.creature_id != b.creature_id || a.move_id != b.move_id
}

impl Database {
    /// Membership row `k` links an existing creature to an existing group.
    pub open spec fn membership_linked(&self, k: int) -> bool {
        has_id(self.creatures@, self.memberships@[k].creature_id) && has_id(
            self.groups@,
            self.memberships@[k].group_id,
        )
    }

    /// Learnset row `k` links an existing creature to an existing move.
    pub open spec fn learnset_linked(&self, k: int) -> bool {
        has_id(self.creatures@, self.learnsets@[k].creature_id) && has_id(
            self.moves@,
            self.learnsets@[k].move_id,
        )
    }

    /// Every membership links an existing creature to an existing group, each pair once.
    pub open spec fn memberships_wf(&self) -> bool {
        &&& forall|i: int| 0 <= i < self.memberships@.len() ==> #[trigger] self.membership_linked(i)
        &&& forall|i: int, j: int|
            0 <= i < j < self.memberships@.len() ==> #[trigger] distinct_memberships(
                self.memberships@[i],
                self.memberships@[j],
            )
    }

    /// Every learnset row links an existing creature to an existing move, each pair once.
    pub open spec fn learnsets_wf(&self) -> bool {
        &&& forall|i: int| 0 <= i < self.learnsets@.len() ==> #[trigger] self.learnset_linked(i)
        &&& forall|i: int, j: int|
            0 <= i < j < self.learnsets@.len() ==> #[trigger] distinct_learnsets(
                self.learnsets@[i],
                self.learnsets@[j],
            )
    }

    /// Each move has its attributes, in the same position, and they are sound.
    pub open spec fn move_stats_wf(&self) -> bool {
        &&& self.move_stats@.len() == self.moves@.len()
        &&& forall|i: int| 0 <= i < self.moves@.len() ==> #[trigger] self.move_described(i)
    }

    /// Attribute row `k` is for move `k` and is sound.
    pub open spec fn move_described(&self, k: int) -> bool {
        self.move_stats@[k].move_id == self.moves@[k].id && stats_ok(self.move_stats@[k])
    }

    /// The catalog's integrity: keys, unique names, references and move attributes.
    pub open spec fn wf(&self) -> bool {
        &&& entries_wf(self.creatures@)
        &&& entries_wf(self.groups@)
        &&& entries_wf(self.moves@)
        &&& self.move_stats_wf()
        &&& self.memberships_wf()
        &&& self.learnsets_wf()
    }
}

/// Whether some row is named `n`.
fn find_any_named(rows: &Vec<Entry>, n: &str) -> (r: bool)
    ensures
        r == any_named(rows@, n@),
{
    let mut i: usize = 0;
    while i < rows.len()
        invariant
            i <= rows@.len(),
            forall|j: int| 0 <= j < i ==> !names_match(#[trigger] rows@[j].name@, n@),
        decreases rows.len() - i,
    {
        if name_matches(rows[i].name.as_str(), n) {
            return true;
        }
        i = i + 1;
    }
    false
}

/// Whether some row has id `id` and is named `n`.
fn find_named(rows: &Vec<Entry>, id: i64, n: &str) -> (r: bool)
    ensures
        r == has_named(rows@, id, n@),
{
    let mut i: usize = 0;
    while i < rows.len()
        invariant
            i <= rows@.len(),
            forall|j: int|
                0 <= j < i ==> !(#[trigger] rows@[j].id == id && names_match(rows@[j].name@, n@)),
        decreases rows.len() - i,
    {
        if rows[i].id == id && name_matches(rows[i].name.as_str(), n) {
            return true;
        }
        i = i + 1;
    }
    false
}

/// Appends the names of the rows whose id is `id`, in row order.
fn push_names_with_id(rows: &Vec<Entry>, id: i64, out: &mut Vec<String>)
    ensures
        strs(final(out)@) == strs(old(out)@) + names_with_id(rows@, id, rows@.len() as int),
{
    let ghost start = strs(out@);
    let mut i: usize = 0;
    while i < rows.len()
        invariant
            i <= rows@.len(),
            strs(out@) == start + names_with_id(rows@, id, i as int),
        decreases rows.len() - i,
    {
        if rows[i].id == id {
            let ghost before = out@;
            out.push(rows[i].name.clone());
            assert(strs(out@) =~= strs(before) + seq![rows@[i as int].name@]);
        }
        assert(strs(out@) =~= start + names_with_id(rows@, id, i + 1));
        i = i + 1;
    }
}

/// Whether some row has id `id`.
fn find_id(rows: &Vec<Entry>, id: i64) -> (r: bool)
    ensures
        r == has_id(rows@, id),
{
    let mut i: usize = 0;
    while i < rows.len()
        invariant
            i <= rows@.len(),
            forall|j: int| 0 <= j < i ==> #[trigger] rows@[j].id != id,
        decreases rows.len() - i,
    {
        if rows[i].id == id {
            return true;
        }
        i = i + 1;
    }
    false
}

/// Checks that ids are positive and unique and names unique, case aside.
fn entries_valid(rows: &Vec<Entry>) -> (r: bool)
    ensures
        r == entries_wf(rows@),
{
    let n = rows.len();
    let mut i: usize = 0;
    while i < n
        invariant
            n == rows@.len(),
            i <= n,
            forall|k: int| 0 <= k < i ==> #[trigger] rows@[k].id > 0,
            forall|k: int, l: int|
                0 <= k < i && k < l < n ==> #[trigger] distinct_entries(rows@[k], rows@[l]),
        decreases n - i,
    {
        if rows[i].id <= 0 {
            return false;
        }
        let mut j: usize = i + 1;
        while j < n
            invariant
                n == rows@.len(),
                i < n,
                i < j <= n,
                forall|l: int| i < l < j ==> #[trigger] distinct_entries(rows@[i as int], rows@[l]),
            decreases n - j,
        {
            if rows[i].id == rows[j].id || name_matches(rows[i].name.as_str(), rows[j].name.as_str()) {
                assert(!distinct_entries(rows@[i as int], rows@[j as int]));
                return false;
            }
            j = j + 1;
        }
        assert forall|k: int, l: int| 0 <= k < i + 1 && k < l < n implies #[trigger] distinct_entries(
            rows@[k],
            rows@[l],
        ) by {
            if k == i {
                assert(distinct_entries(rows@[i as int], rows@[l]));
            }
        }
        i = i + 1;
    }
    true
}

impl Database {
    /// Checks that every membership links an existing creature to an existing
    /// group, each pair once.
    fn memberships_valid(&self) -> (r: bool)
        ensures
            r == self.memberships_wf(),
    {
        let n = self.memberships.len();
        let mut i: usize = 0;
        while i < n
            invariant
                n == self.memberships@.len(),
                i <= n,
                forall|k: int| 0 <= k < i ==> #[trigger] self.membership_linked(k),
                forall|k: int, l: int|
                    0 <= k < i && k < l < n ==> #[trigger] distinct_memberships(self.memberships@[k], self.memberships@[l]),
            decreases n - i,
        {
            let linked = find_id(&self.creatures, self.memberships[i].creature_id) && find_id(
                &self.groups,
                self.memberships[i].group_id,
            );
            if !linked {
                assert(!self.membership_linked(i as int));
                return false;
            }
            assert(self.membership_linked(i as int));
            let mut j: usize = i + 1;
            while j < n
                invariant
                    n == self.memberships@.len(),
                    i < n,
                    i < j <= n,
                    forall|l: int| i < l < j ==> #[trigger] distinct_memberships(self.memberships@[i as int], self.memberships@[l]),
                decreases n - j,
            {
                if self.memberships[i].creature_id == self.memberships[j].creature_id && self.memberships[i].group_id
                    == self.memberships[j].group_id {
                    assert(!distinct_memberships(self.memberships@[i as int], self.memberships@[j as int]));
                    return false;
                }
                j = j + 1;
            }
            assert forall|k: int, l: int| 0 <= k < i + 1 && k < l < n implies #[trigger] distinct_memberships(
                self.memberships@[k],
                self.memberships@[l],
            ) by {
                if k == i {
                    assert(distinct_memberships(self.memberships@[i as int], self.memberships@[l]));
                }
            }
            i = i + 1;
        }
        true
    }

    /// Checks that every learnset row links an existing creature to an
    /// existing move, each pair once.
    fn learnsets_valid(&self) -> (r: bool)
        ensures
            r == self.learnsets_wf(),
    {
        let n = self.learnsets.len();
        let mut i: usize = 0;
        while i < n
            invariant
                n == self.learnsets@.len(),
                i <= n,
                forall|k: int| 0 <= k < i ==> #[trigger] self.learnset_linked(k),
                forall|k: int, l: int|
                    0 <= k < i && k < l < n ==> #[trigger] distinct_learnsets(self.learnsets@[k], self.learnsets@[l]),
            decreases n - i,
        {
            let linked = find_id(&self.creatures, self.learnsets[i].creature_id) && find_id(
                &self.moves,
                self.learnsets[i].move_id,
            );
            if !linked {
                assert(!self.learnset_linked(i as int));
                return false;
            }
            assert(self.learnset_linked(i as int));
            let mut j: usize = i + 1;
            while j < n
                invariant
                    n == self.learnsets@.len(),
                    i < n,
                    i < j <= n,
                    forall|l: int| i < l < j ==> #[trigger] distinct_learnsets(self.learnsets@[i as int], self.learnsets@[l]),
                decreases n - j,
            {
                if self.learnsets[i].creature_id == self.learnsets[j].creature_id && self.learnsets[i].move_id
                    == self.learnsets[j].move_id {
                    assert(!distinct_learnsets(self.learnsets@[i as int], self.learnsets@[j as int]));
                    return false;
                }
                j = j + 1;
            }
            assert forall|k: int, l: int| 0 <= k < i + 1 && k < l < n implies #[trigger] distinct_learnsets(
                self.learnsets@[k],
                self.learnsets@[l],
            ) by {
                if k == i {
                    assert(distinct_learnsets(self.learnsets@[i as int], self.learnsets@[l]));
                }
            }
            i = i + 1;
        }
        true
    }

    /// Checks that each move has sound attributes in the same position.
    fn move_stats_valid(&self) -> (r: bool)
        ensures
            r == self.move_stats_wf(),
    {
        if self.move_stats.len() != self.moves.len() {
            return false;
        }
        let status = String::from_str("Status");
        let physical = String::from_str("Physical");
        let special = String::from_str("Special");
        let mut i: usize = 0;
        while i < self.moves.len()
            invariant
                self.move_stats@.len() == self.moves@.len(),
                i <= self.moves@.len(),
                status@ == "Status"@,
                physical@ == "Physical"@,
                special@ == "Special"@,
                forall|k: int| 0 <= k < i ==> #[trigger] self.move_described(k),
            decreases self.moves.len() - i,
        {
            let st = &self.move_stats[i];
            let known = st.category == status || st.category == physical || st.category == special;
            let power_ok = match st.power {
                Some(p) => p > 0,
                None => true,
            };
            let accuracy_ok = match st.accuracy {
                Some(a) => a > 0,
                None => true,
            };
            if st.move_id != self.moves[i].id || !known || !power_ok || !accuracy_ok {
                assert(!self.move_described(i as int));
                return false;
            }
            assert(is_category(self.move_stats@[i as int].category@));
            assert(self.move_described(i as int));
            i = i + 1;
        }
        true
    }

    /// Checks the catalog's integrity.
    pub fn is_valid(&self) -> (r: bool)
        ensures
            r == self.wf(),
    {
        entries_valid(&self.creatures) && entries_valid(&self.groups) && entries_valid(&self.moves)
            && self.move_stats_valid()
            && self.memberships_valid() && self.learnsets_valid()
    }
}

impl Database {
    /// Whether a creature of this name is in the catalog.
    pub fn has_creature(&self, name: &str) -> (r: bool)
        ensures
            r == any_named(self.creatures@, name@),
    {
        find_any_named(&self.creatures, name)
    }

    /// The names of the egg groups of the named creature; empty when it has
    /// none or is not in the catalog.
    pub fn egg_groups_of(&self, name: &str) -> (r: Vec<String>)
        ensures
            strs(r@) == self.groups_spec(name@),
    {
        let mut out: Vec<String> = Vec::new();
        let mut i: usize = 0;
        assert(strs(out@) =~= seq![]);
        while i < self.memberships.len()
            invariant
                i <= self.memberships@.len(),
                strs(out@) == self.groups_upto(name@, i as int),
            decreases self.memberships.len() - i,
        {
            let m = &self.memberships[i];
            if find_named(&self.creatures, m.creature_id, name) {
                push_names_with_id(&self.groups, m.group_id, &mut out);
            } else {
                assert(strs(out@) =~= self.groups_upto(name@, i + 1));
            }
            i = i + 1;
        }
        out
    }

    /// The names of the moves that the named creature passes to offspring.
    pub fn egg_moves_of(&self, name: &str) -> (r: Vec<String>)
        ensures
            strs(r@) == self.egg_moves_spec(name@),
    {
        let egg = String::from_str("egg");
        proof {
            reveal_strlit("egg");
            assert(egg@ =~= egg_tag());
        }
        let mut out: Vec<String> = Vec::new();
        let mut i: usize = 0;
        assert(strs(out@) =~= seq![]);
        while i < self.learnsets.len()
            invariant
                i <= self.learnsets@.len(),
                egg@ == egg_tag(),
                strs(out@) == self.egg_moves_upto(name@, i as int),
            decreases self.learnsets.len() - i,
        {
            let l = &self.learnsets[i];
            if find_named(&self.creatures, l.creature_id, name) && l.method == egg {
                push_names_with_id(&self.moves, l.move_id, &mut out);
            } else {
                assert(strs(out@) =~= self.egg_moves_upto(name@, i + 1));
            }
            i = i + 1;
        }
        out
    }

    /// Whether egg group `g` has a member named `n`.
    fn find_group_has_named(&self, g: i64, n: &str) -> (r: bool)
        ensures
            r == self.group_has_named(g, n@),
    {
        let mut j: usize = 0;
        while j < self.memberships.len()
            invariant
                j <= self.memberships@.len(),
                forall|k: int|
                    0 <= k < j ==> !(#[trigger] self.memberships@[k].group_id == g && has_named(
                        self.creatures@,
                        self.memberships@[k].creature_id,
                        n@,
                    )),
            decreases self.memberships.len() - j,
        {
            let m = &self.memberships[j];
            if m.group_id == g && find_named(&self.creatures, m.creature_id, n) {
                return true;
            }
            j = j + 1;
        }
        false
    }

    /// Whether the creature with id `id` shares an egg group with the one named `n`.
    fn find_shares_group(&self, id: i64, n: &str) -> (r: bool)
        ensures
            r == self.shares_group(id, n@),
    {
        let mut i: usize = 0;
        while i < self.memberships.len()
            invariant
                i <= self.memberships@.len(),
                forall|k: int|
                    0 <= k < i ==> !(#[trigger] self.memberships@[k].creature_id == id
                        && self.group_has_named(self.memberships@[k].group_id, n@)),
            decreases self.memberships.len() - i,
        {
            let m = &self.memberships[i];
            if m.creature_id == id && self.find_group_has_named(m.group_id, n) {
                return true;
            }
            i = i + 1;
        }
        false
    }

    /// The names of every creature that shares at least one egg group with the
    /// named one, each once. The named creature is among them whenever it has
    /// an egg group.
    pub fn compatible_with(&self, name: &str) -> (r: Vec<String>)
        ensures
            strs(r@) == self.compatible_spec(name@),
    {
        let mut out: Vec<String> = Vec::new();
        let mut i: usize = 0;
        assert(strs(out@) =~= seq![]);
        while i < self.creatures.len()
            invariant
                i <= self.creatures@.len(),
                strs(out@) == self.compatible_upto(name@, i as int),
            decreases self.creatures.len() - i,
        {
            let c = &self.creatures[i];
            if self.find_shares_group(c.id, name) {
                let ghost before = out@;
                out.push(c.name.clone());
                assert(strs(out@) =~= strs(before) + seq![c.name@]);
            } else {
                assert(strs(out@) =~= self.compatible_upto(name@, i + 1));
            }
            i = i + 1;
        }
        out
    }
}

/// A creature is found under every casing of its name: two names equal up to
/// the case of their ASCII letters are either both in the catalog or both absent.
pub proof fn lemma_lookup_ignores_case(db: &Database, a: Seq<char>, b: Seq<char>)
    requires
        names_match(a, b),
    ensures
        any_named(db.creatures@, a) == any_named(db.creatures@, b),
{
    crate::nocase::lemma_names_match_symm(a, b);
    if any_named(db.creatures@, a) {
        let i = choose|i: int| 0 <= i < db.creatures@.len() && names_match(#[trigger] db.creatures@[i].name@, a);
        crate::nocase::lemma_names_match_trans(db.creatures@[i].name@, a, b);
    }
    if any_named(db.creatures@, b) {
        let i = choose|i: int| 0 <= i < db.creatures@.len() && names_match(#[trigger] db.creatures@[i].name@, b);
        crate::nocase::lemma_names_match_trans(db.creatures@[i].name@, b, a);
    }
}

proof fn lemma_unknown_upto(db: &Database, n: Seq<char>, k: int)
    requires
        !any_named(db.creatures@, n),
    ensures
        db.groups_upto(n, k) == Seq::<Seq<char>>::empty(),
        db.egg_moves_upto(n, k) == Seq::<Seq<char>>::empty(),
        db.compatible_upto(n, k) == Seq::<Seq<char>>::empty(),
    decreases k,
{
    if k > 0 {
        lemma_unknown_upto(db, n, k - 1);
        let m = db.memberships@[k - 1];
        if has_named(db.creatures@, m.creature_id, n) {
            let i = choose|i: int|
                0 <= i < db.creatures@.len() && #[trigger] db.creatures@[i].id == m.creature_id
                    && names_match(db.creatures@[i].name@, n);
            assert(names_match(db.creatures@[i].name@, n));
        }
        let l = db.learnsets@[k - 1];
        if has_named(db.creatures@, l.creature_id, n) {
            let i = choose|i: int|
                0 <= i < db.creatures@.len() && #[trigger] db.creatures@[i].id == l.creature_id
                    && names_match(db.creatures@[i].name@, n);
            assert(names_match(db.creatures@[i].name@, n));
        }
        let c = db.creatures@[k - 1];
        if db.shares_group(c.id, n) {
            let i = choose|i: int|
                0 <= i < db.memberships@.len() && #[trigger] db.memberships@[i].creature_id == c.id
                    && db.group_has_named(db.memberships@[i].group_id, n);
            let g = db.memberships@[i].group_id;
            let j = choose|j: int|
                0 <= j < db.memberships@.len() && #[trigger] db.memberships@[j].group_id == g
                    && has_named(db.creatures@, db.memberships@[j].creature_id, n);
            let cid = db.memberships@[j].creature_id;
            let q = choose|q: int|
                0 <= q < db.creatures@.len() && #[trigger] db.creatures@[q].id == cid
                    && names_match(db.creatures@[q].name@, n);
            assert(names_match(db.creatures@[q].name@, n));
        }
        assert(db.groups_upto(n, k) =~= Seq::<Seq<char>>::empty());
        assert(db.egg_moves_upto(n, k) =~= Seq::<Seq<char>>::empty());
        assert(db.compatible_upto(n, k) =~= Seq::<Seq<char>>::empty());
    }
}

/// A name that no creature has gets no egg groups, no egg moves and no partners.
pub proof fn lemma_unknown_name_is_empty(db: &Database, n: Seq<char>)
    requires
        !any_named(db.creatures@, n),
    ensures
        db.groups_spec(n) == Seq::<Seq<char>>::empty(),
        db.egg_moves_spec(n) == Seq::<Seq<char>>::empty(),
        db.compatible_spec(n) == Seq::<Seq<char>>::empty(),
{
    lemma_unknown_upto(db, n, db.memberships@.len() as int);
    lemma_unknown_upto(db, n, db.learnsets@.len() as int);
    lemma_unknown_upto(db, n, db.creatures@.len() as int);
}

proof fn lemma_compatible_upto_members(db: &Database, n: Seq<char>, k: int, x: Seq<char>)
    requires
        0 <= k <= db.creatures@.len(),
    ensures
        db.compatible_upto(n, k).contains(x) <==> exists|i: int|
            0 <= i < k && #[trigger] db.creatures@[i].name@ == x && db.shares_group(
                db.creatures@[i].id,
                n,
            ),
    decreases k,
{
    if k > 0 {
        lemma_compatible_upto_members(db, n, k - 1, x);
        let c = db.creatures@[k - 1];
        let prev = db.compatible_upto(n, k - 1);
        if db.shares_group(c.id, n) {
            assert(db.compatible_upto(n, k) == prev + seq![c.name@]);
            if c.name@ == x {
                assert(db.compatible_upto(n, k)[prev.len() as int] == x);
            }
            if db.compatible_upto(n, k).contains(x) {
                let p = choose|p: int| 0 <= p < db.compatible_upto(n, k).len() && db.compatible_upto(n, k)[p] == x;
                if p < prev.len() {
                    assert(prev[p] == x);
                }
            }
        } else {
            assert(db.compatible_upto(n, k) =~= prev);
        }
        if prev.contains(x) {
            let p = choose|p: int| 0 <= p < prev.len() && prev[p] == x;
            assert(db.compatible_upto(n, k)[p] == x);
        }
    }
}

/// The partners of the creature named `n` are exactly the names of the
/// creatures that share an egg group with it: none that shares no group is
/// listed.
pub proof fn lemma_compatible_members(db: &Database, n: Seq<char>, x: Seq<char>)
    ensures
        db.compatible_spec(n).contains(x) <==> exists|i: int|
            0 <= i < db.creatures@.len() && #[trigger] db.creatures@[i].name@ == x
                && db.shares_group(db.creatures@[i].id, n),
{
    lemma_compatible_upto_members(db, n, db.creatures@.len() as int, x);
}

/// A creature that belongs to an egg group is among its own partners, under
/// whatever casing of its name it is looked up.
pub proof fn lemma_compatible_includes_self(db: &Database, n: Seq<char>, c: int, m: int)
    requires
        0 <= c < db.creatures@.len(),
        names_match(db.creatures@[c].name@, n),
        0 <= m < db.memberships@.len(),
        db.memberships@[m].creature_id == db.creatures@[c].id,
    ensures
        db.compatible_spec(n).contains(db.creatures@[c].name@),
{
    let id = db.creatures@[c].id;
    assert(has_named(db.creatures@, id, n));
    assert(db.group_has_named(db.memberships@[m].group_id, n));
    assert(db.shares_group(id, n));
    lemma_compatible_members(db, n, db.creatures@[c].name@);
}

} // verus!
