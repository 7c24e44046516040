//! Breeding resolution: whether two creatures share an egg group, which of
//! them hands down its egg moves, and the texts that report the outcome.
use vstd::prelude::*;
use crate::catalog::{any_named, strs, Database};
use crate::nocase::{names_match, name_matches};

verus! {

/// What is known of one side of a breeding query.
pub enum GroupInfo {
    /// No creature of that name is in the catalog.
    NotFound,
    /// The creature's egg groups, possibly none.
    Groups(Vec<String>),
}

/// The outcome of a breeding query.
pub enum Outcome {
    /// The two creatures share no egg group.
    Incompatible,
    /// They share one; `donor` hands down `egg_moves`.
    Compatible { donor: String, egg_moves: Vec<String> },
}

/// Both sides of a breeding query and its outcome.
pub struct BreedingResult {
    pub mother: GroupInfo,
    pub other: GroupInfo,
    pub outcome: Outcome,
}

impl View for GroupInfo {
    type V = Option<Seq<Seq<char>>>;

    open spec fn view(&self) -> Option<Seq<Seq<char>>> {
        match self {
            GroupInfo::NotFound => None,
            GroupInfo::Groups(g) => Some(strs(g@)),
        }
    }
}

impl View for Outcome {
    type V = Option<(Seq<char>, Seq<Seq<char>>)>;

    open spec fn view(&self) -> Option<(Seq<char>, Seq<Seq<char>>)> {
        match self {
            Outcome::Incompatible => None,
            Outcome::Compatible { donor, egg_moves } => Some((donor@, strs(egg_moves@))),
        }
    }
}

impl View for BreedingResult {
    type V = (Option<Seq<Seq<char>>>, Option<Seq<Seq<char>>>, Option<(Seq<char>, Seq<Seq<char>>)>);

    open spec fn view(&self) -> Self::V {
        (self.mother@, self.other@, self.outcome@)
    }
}

/// The species that belongs to every egg group.
pub open spec fn universal_breeder() -> Seq<char> {
    seq!['D', 'i', 't', 't', 'o']
}

/// The two lists share at least one name.
pub open spec fn overlaps(a: Seq<Seq<char>>, b: Seq<Seq<char>>) -> bool {
    exists|i: int, j: int| 0 <= i < a.len() && 0 <= j < b.len() && #[trigger] a[i] == #[trigger] b[j]
}

/// The creature whose egg moves a pairing reports: the other one when the
/// mother is the universal breeder, the mother in every other case.
pub open spec fn donor_of(mother: Seq<char>, other: Seq<char>) -> Seq<char> {
    if names_match(mother, universal_breeder()) {
        other
    } else {
        mother
    }
}

/// The first `k` names, separated by a comma and a space.
pub open spec fn joined(items: Seq<Seq<char>>, k: int) -> Seq<char>
    decreases k,
{
    if k <= 0 {
        seq![]
    } else if k == 1 {
        items[0]
    } else {
        joined(items, k - 1) + ", "@ + items[k - 1]
    }
}

/// The names separated by commas, or "None" for an empty list.
pub open spec fn list_text(items: Seq<Seq<char>>) -> Seq<char> {
    if items.len() == 0 {
        "None"@
    } else {
        joined(items, items.len() as int)
    }
}

/// The line that reports one side of a breeding query.
pub open spec fn info_text(info: Option<Seq<Seq<char>>>) -> Seq<char> {
    match info {
        None => "Not Found"@,
        Some(g) => "Egg Groups: "@ + list_text(g),
    }
}

/// The text that reports the outcome of a breeding query.
pub open spec fn outcome_text(outcome: Option<(Seq<char>, Seq<Seq<char>>)>) -> Seq<char> {
    match outcome {
        None => "Bad Match!"@,
        Some((donor, moves)) => donor + "\nEgg Moves: "@ + list_text(moves),
    }
}

impl Database {
    /// One side of a breeding query on the creature named `n`.
    pub open spec fn info_spec(&self, n: Seq<char>) -> Option<Seq<Seq<char>>> {
        if any_named(self.creatures@, n) {
            Some(self.groups_spec(n))
        } else {
            None
        }
    }

    /// The outcome of pairing `mother` with `other`.
    pub open spec fn outcome_spec(&self, mother: Seq<char>, other: Seq<char>) -> Option<
        (Seq<char>, Seq<Seq<char>>),
    > {
        if overlaps(self.groups_spec(mother), self.groups_spec(other)) {
            let d = donor_of(mother, other);
            Some((d, self.egg_moves_spec(d)))
        } else {
            None
        }
    }

    /// The full answer to a breeding query.
    pub open spec fn breeding_spec(&self, mother: Seq<char>, other: Seq<char>) -> (
        Option<Seq<Seq<char>>>,
        Option<Seq<Seq<char>>>,
        Option<(Seq<char>, Seq<Seq<char>>)>,
    ) {
        (self.info_spec(mother), self.info_spec(other), self.outcome_spec(mother, other))
    }

    /// The text of a search for partners of the creature named `n`.
    pub open spec fn search_text(&self, n: Seq<char>) -> Seq<char> {
        if any_named(self.creatures@, n) {
            "Breedable: "@ + list_text(self.compatible_spec(n))
        } else {
            "Not Found"@
        }
    }
}

/// Whether `v` holds a string equal to `s`.
fn contains_text(v: &Vec<String>, s: &String) -> (r: bool)
    ensures
        r == exists|j: int| 0 <= j < v@.len() && #[trigger] strs(v@)[j] == s@,
{
    let mut j: usize = 0;
    while j < v.len()
        invariant
            j <= v@.len(),
            forall|k: int| 0 <= k < j ==> #[trigger] strs(v@)[k] != s@,
        decreases v.len() - j,
    {
        if v[j] == *s {
            assert(strs(v@)[j as int] == s@);
            return true;
        }
        j = j + 1;
    }
    false
}

/// Whether the two lists share at least one name.
pub fn lists_overlap(a: &Vec<String>, b: &Vec<String>) -> (r: bool)
    ensures
        r == overlaps(strs(a@), strs(b@)),
{
    let mut i: usize = 0;
    while i < a.len()
        invariant
            i <= a@.len(),
            forall|k: int, j: int|
                0 <= k < i && 0 <= j < b@.len() ==> #[trigger] strs(a@)[k] != #[trigger] strs(b@)[j],
        decreases a.len() - i,
    {
        if contains_text(b, &a[i]) {
            proof {
                let j = choose|j: int| 0 <= j < b@.len() && #[trigger] strs(b@)[j] == a@[i as int]@;
                assert(strs(a@)[i as int] == strs(b@)[j]);
            }
            return true;
        }
        i = i + 1;
    }
    false
}

/// The creature whose egg moves a pairing reports.
pub fn donor<'a>(mother: &'a str, other: &'a str) -> (r: &'a str)
    ensures
        r@ == donor_of(mother@, other@),
{
    let breeder = "Ditto";
    proof {
        reveal_strlit("Ditto");
        assert(breeder@ =~= universal_breeder());
    }
    if name_matches(mother, breeder) {
        other
    } else {
        mother
    }
}

/// The names separated by commas, or "None" for an empty list.
pub fn list_summary(items: &Vec<String>) -> (r: String)
    ensures
        r@ == list_text(strs(items@)),
{
    if items.len() == 0 {
        return String::from_str("None");
    }
    let mut out = items[0].clone();
    let mut i: usize = 1;
    while i < items.len()
        invariant
            1 <= i <= items@.len(),
            out@ == joined(strs(items@), i as int),
        decreases items.len() - i,
    {
        out.append(", ");
        out.append(items[i].as_str());
        i = i + 1;
    }
    out
}

impl GroupInfo {
    /// The line that reports this side of a breeding query.
    pub fn summary(&self) -> (r: String)
        ensures
            r@ == info_text(self@),
    {
        match self {
            GroupInfo::NotFound => String::from_str("Not Found"),
            GroupInfo::Groups(g) => String::from_str("Egg Groups: ").concat(list_summary(g).as_str()),
        }
    }
}

impl Outcome {
    /// The text that reports this outcome.
    pub fn summary(&self) -> (r: String)
        ensures
            r@ == outcome_text(self@),
    {
        match self {
            Outcome::Incompatible => String::from_str("Bad Match!"),
            Outcome::Compatible { donor, egg_moves } => donor.clone().concat("\nEgg Moves: ").concat(
                list_summary(egg_moves).as_str(),
            ),
        }
    }
}

impl Database {
    /// One side of a breeding query.
    pub fn group_info(&self, name: &str) -> (r: GroupInfo)
        ensures
            r@ == self.info_spec(name@),
    {
        if self.has_creature(name) {
            GroupInfo::Groups(self.egg_groups_of(name))
        } else {
            GroupInfo::NotFound
        }
    }

    /// Answers whether `mother` and `other` can breed and, if they can, which
    /// of them hands down which egg moves.
    pub fn resolve_breeding(&self, mother: &str, other: &str) -> (r: BreedingResult)
        ensures
            r@ == self.breeding_spec(mother@, other@),
    {
        let mother_groups = self.egg_groups_of(mother);
        let other_groups = self.egg_groups_of(other);
        let mother_info = if self.has_creature(mother) {
            GroupInfo::Groups(mother_groups.clone())
        } else {
            GroupInfo::NotFound
        };
        let other_info = if self.has_creature(other) {
            GroupInfo::Groups(other_groups.clone())
        } else {
            GroupInfo::NotFound
        };
        let outcome = if lists_overlap(&mother_groups, &other_groups) {
            let d = donor(mother, other);
            Outcome::Compatible { donor: String::from_str(d), egg_moves: self.egg_moves_of(d) }
        } else {
            Outcome::Incompatible
        };
        BreedingResult { mother: mother_info, other: other_info, outcome }
    }

    /// Reports the creatures that can breed with the named one.
    pub fn search_summary(&self, name: &str) -> (r: String)
        ensures
            r@ == self.search_text(name@),
    {
        if self.has_creature(name) {
            let compatible = self.compatible_with(name);
            String::from_str("Breedable: ").concat(list_summary(&compatible).as_str())
        } else {
            String::from_str("Not Found")
        }
    }
}

/// Whether two creatures are incompatible does not depend on which of them
/// is the mother.
pub proof fn lemma_incompatible_either_order(db: &Database, a: Seq<char>, b: Seq<char>)
    ensures
        db.outcome_spec(a, b) is None <==> db.outcome_spec(b, a) is None,
{
    let ga = db.groups_spec(a);
    let gb = db.groups_spec(b);
    if overlaps(ga, gb) {
        let (i, j) = choose|i: int, j: int| 0 <= i < ga.len() && 0 <= j < gb.len() && #[trigger] ga[i] == #[trigger] gb[j];
        assert(gb[j] == ga[i]);
    }
    if overlaps(gb, ga) {
        let (i, j) = choose|i: int, j: int| 0 <= i < gb.len() && 0 <= j < ga.len() && #[trigger] gb[i] == #[trigger] ga[j];
        assert(ga[j] == gb[i]);
    }
}

/// The same breeding query against the same catalog always gives the same
/// result, and the same texts to the last character.
pub proof fn lemma_breeding_repeatable(
    db: &Database,
    mother: Seq<char>,
    other: Seq<char>,
    first: &BreedingResult,
    second: &BreedingResult,
)
    requires
        first@ == db.breeding_spec(mother, other),
        second@ == db.breeding_spec(mother, other),
    ensures
        first@ == second@,
        info_text(first.mother@) == info_text(second.mother@),
        info_text(first.other@) == info_text(second.other@),
        outcome_text(first.outcome@) == outcome_text(second.outcome@),
{
}

} // verus!
