//! Building the catalog: an in-memory SQLite database gets the schema and the
//! seed rows in one transaction, with foreign keys enforced. Its tables are
//! then read back in key order into a `Database`, which must be sound and
//! must hold exactly the seed.
use vstd::prelude::*;
use rusqlite::Connection;
use crate::catalog::{Database, Entry, Learnset, Membership, MoveStats};

verus! {

#[verifier::external_type_specification]
#[verifier::external_body]
pub struct ExConnection(rusqlite::Connection);

#[verifier::external_type_specification]
#[verifier::external_body]
pub struct ExSqlError(rusqlite::Error);

/// Why the catalog could not be built.
pub enum StoreError {
    /// SQLite refused the schema, the seed or a read.
    Backend(rusqlite::Error),
    /// The rows break a key, a unique name or a reference, or are not the seed.
    Invalid,
}

/// Schema and seed rows, applied as a single transaction.
pub const SEED_SQL: &'static str = "
    PRAGMA foreign_keys = ON;
    BEGIN TRANSACTION;

    CREATE TABLE pokemon(
      pokemon_id     INTEGER PRIMARY KEY CHECK(pokemon_id > 0),
      name           TEXT NOT NULL UNIQUE COLLATE NOCASE,
      primary_type   TEXT NOT NULL DEFAULT 'Normal',
      secondary_type TEXT DEFAULT NULL
    ) STRICT;

    CREATE TABLE egg_group(
      egg_group_id INTEGER PRIMARY KEY AUTOINCREMENT CHECK(egg_group_id > 0),
      name         TEXT NOT NULL UNIQUE COLLATE NOCASE
    ) STRICT;

    CREATE TABLE pokemon_egg_group(
      pokemon_id   INTEGER,
      egg_group_id INTEGER,
      PRIMARY KEY(pokemon_id, egg_group_id),
      FOREIGN KEY(pokemon_id)   REFERENCES pokemon(pokemon_id) ON DELETE CASCADE ON UPDATE CASCADE,
      FOREIGN KEY(egg_group_id) REFERENCES egg_group(egg_group_id) ON DELETE CASCADE ON UPDATE CASCADE
    ) STRICT;

    CREATE TABLE move(
      move_id  INTEGER PRIMARY KEY CHECK(move_id > 0),
      name     TEXT NOT NULL UNIQUE COLLATE NOCASE,
      type     TEXT NOT NULL DEFAULT 'Normal',
      category TEXT NOT NULL CHECK(category in ('Status', 'Physical', 'Special')) DEFAULT 'Physical',
      power    INTEGER CHECK(power > 0 OR power IS NULL) DEFAULT NULL,
      accuracy INTEGER CHECK(accuracy > 0 OR accuracy IS NULL) DEFAULT 100
    ) STRICT;

    CREATE TABLE pokemon_move(
      pokemon_id INTEGER,
      move_id    INTEGER,
      method     TEXT NOT NULL,
      PRIMARY KEY(pokemon_id, move_id),
      FOREIGN KEY(pokemon_id) REFERENCES pokemon(pokemon_id) ON DELETE CASCADE ON UPDATE CASCADE,
      FOREIGN KEY(move_id)    REFERENCES move(move_id) ON DELETE CASCADE ON UPDATE CASCADE
    ) STRICT;

    INSERT INTO egg_group (name) VALUES
      ('Monster'), ('Grass'), ('Bug'), ('Normal'), ('Psychic');

    INSERT INTO pokemon (pokemon_id, name, primary_type, secondary_type) VALUES
      (1, 'Bulbasaur', 'Grass', 'Poison'),
      (2, 'Ivysaur', 'Grass', 'Poison'),
      (3, 'Venusaur', 'Grass', 'Poison'),
      (4, 'Charmander', 'Fire', NULL),
      (5, 'Charmeleon', 'Fire', NULL),
      (6, 'Charizard', 'Fire', 'Flying'),
      (7, 'Squirtle', 'Water', NULL),
      (8, 'Wartortle', 'Water', NULL),
      (9, 'Blastoise', 'Water', NULL),
      (10, 'Caterpie', 'Bug', NULL),
      (150, 'MewTwo', 'Psychic', NULL),
      (132, 'Ditto', 'Normal', NULL);

    -- Bulbasaur line: Monster and Grass
    INSERT INTO pokemon_egg_group (pokemon_id, egg_group_id)
      SELECT 1, egg_group_id FROM egg_group WHERE name IN ('Monster', 'Grass');
    INSERT INTO pokemon_egg_group (pokemon_id, egg_group_id)
      SELECT 2, egg_group_id FROM egg_group WHERE name IN ('Monster', 'Grass');
    INSERT INTO pokemon_egg_group (pokemon_id, egg_group_id)
      SELECT 3, egg_group_id FROM egg_group WHERE name IN ('Monster', 'Grass');

    -- Charmander line: Monster
    INSERT INTO pokemon_egg_group (pokemon_id, egg_group_id)
      SELECT 4, egg_group_id FROM egg_group WHERE name = 'Monster';
    INSERT INTO pokemon_egg_group (pokemon_id, egg_group_id)
      SELECT 5, egg_group_id FROM egg_group WHERE name = 'Monster';
    INSERT INTO pokemon_egg_group (pokemon_id, egg_group_id)
      SELECT 6, egg_group_id FROM egg_group WHERE name = 'Monster';

    -- Squirtle line: Monster
    INSERT INTO pokemon_egg_group (pokemon_id, egg_group_id)
      SELECT 7, egg_group_id FROM egg_group WHERE name = 'Monster';
    INSERT INTO pokemon_egg_group (pokemon_id, egg_group_id)
      SELECT 8, egg_group_id FROM egg_group WHERE name = 'Monster';
    INSERT INTO pokemon_egg_group (pokemon_id, egg_group_id)
      SELECT 9, egg_group_id FROM egg_group WHERE name = 'Monster';

    -- Caterpie line: Bug
    INSERT INTO pokemon_egg_group (pokemon_id, egg_group_id)
      SELECT 10, egg_group_id FROM egg_group WHERE name = 'Bug';

    -- Ditto: every group
    INSERT INTO pokemon_egg_group (pokemon_id, egg_group_id)
      SELECT 132, egg_group_id FROM egg_group;

    INSERT INTO move (name, type, category, power, accuracy) VALUES
      ('Amnesia', 'Psychic', 'Status', NULL, NULL),
      ('Skull Bash', 'Normal', 'Physical', 130, 100),
      ('Dragon Dance', 'Dragon', 'Status', NULL, NULL),
      ('Fake Out', 'Normal', 'Physical', 40, 100),
      ('Haze', 'Ice', 'Status', NULL, NULL),
      ('Mirror Coat', 'Psychic', 'Special', NULL, 100);

    -- Bulbasaur line: Amnesia and Skull Bash
    INSERT INTO pokemon_move (pokemon_id, move_id, method)
      SELECT 1, move_id, 'egg' FROM move WHERE name = 'Amnesia';
    INSERT INTO pokemon_move (pokemon_id, move_id, method)
      SELECT 1, move_id, 'egg' FROM move WHERE name = 'Skull Bash';

    -- Charmander line: Dragon Dance
    INSERT INTO pokemon_move (pokemon_id, move_id, method)
      SELECT 4, move_id, 'egg' FROM move WHERE name = 'Dragon Dance';

    -- Squirtle line: Fake Out and Haze
    INSERT INTO pokemon_move (pokemon_id, move_id, method)
      SELECT 7, move_id, 'egg' FROM move WHERE name = 'Fake Out';
    INSERT INTO pokemon_move (pokemon_id, move_id, method)
      SELECT 7, move_id, 'egg' FROM move WHERE name = 'Haze';

    COMMIT;
    ";

/// Relies on rusqlite's `Connection::open_in_memory`: a new, empty in-memory
/// database, or the error SQLite gave.
#[verifier::external_body]
fn open_in_memory() -> (r: Result<Connection, rusqlite::Error>) {
    Connection::open_in_memory()
}

/// Relies on rusqlite's `Connection::execute_batch`: runs the statements of
/// `sql` in order and stops at the first error.
#[verifier::external_body]
fn execute_batch(conn: &Connection, sql: &str) -> (r: Result<(), rusqlite::Error>) {
    conn.execute_batch(sql)
}

/// A row read back from SQLite: two integers, a text, and two integers that
/// may be NULL.
pub type SqlRow = (i64, i64, String, Option<i64>, Option<i64>);

/// Relies on rusqlite's `Connection::prepare`, `Statement::query_map` and
/// `Row::get`: the rows of a query whose five columns have the types of
/// `SqlRow`, or the first error met.
#[verifier::external_body]
fn query_rows(conn: &Connection, sql: &str) -> (r: Result<Vec<SqlRow>, rusqlite::Error>) {
    let mut stmt = conn.prepare(sql)?;
    let rows = stmt.query_map(
        (),
        |row| Ok((row.get(0)?, row.get(1)?, row.get(2)?, row.get(3)?, row.get(4)?)),
    )?;
    rows.collect()
}

/// Entity rows from rows of (id, unused, name, unused, unused).
fn to_entries(rows: Vec<SqlRow>) -> (r: Vec<Entry>)
    ensures
        r@.len() == rows@.len(),
        forall|i: int|
            0 <= i < rows@.len() ==> #[trigger] r@[i].id == rows@[i].0 && r@[i].name == rows@[i].2,
{
    let mut out: Vec<Entry> = Vec::new();
    let mut i: usize = 0;
    while i < rows.len()
        invariant
            i <= rows@.len(),
            out@.len() == i,
            forall|k: int|
                0 <= k < i ==> #[trigger] out@[k].id == rows@[k].0 && out@[k].name == rows@[k].2,
        decreases rows.len() - i,
    {
        out.push(Entry { id: rows[i].0, name: rows[i].2.clone() });
        i = i + 1;
    }
    out
}

/// Membership rows from rows of (creature id, group id, unused, unused, unused).
fn to_memberships(rows: Vec<SqlRow>) -> (r: Vec<Membership>)
    ensures
        r@.len() == rows@.len(),
        forall|i: int|
            0 <= i < rows@.len() ==> #[trigger] r@[i].creature_id == rows@[i].0 && r@[i].group_id
                == rows@[i].1,
{
    let mut out: Vec<Membership> = Vec::new();
    let mut i: usize = 0;
    while i < rows.len()
        invariant
            i <= rows@.len(),
            out@.len() == i,
            forall|k: int|
                0 <= k < i ==> #[trigger] out@[k].creature_id == rows@[k].0 && out@[k].group_id
                    == rows@[k].1,
        decreases rows.len() - i,
    {
        out.push(Membership { creature_id: rows[i].0, group_id: rows[i].1 });
        i = i + 1;
    }
    out
}

/// Learnset rows from rows of (creature id, move id, method, unused, unused).
fn to_learnsets(rows: Vec<SqlRow>) -> (r: Vec<Learnset>)
    ensures
        r@.len() == rows@.len(),
        forall|i: int|
            0 <= i < rows@.len() ==> #[trigger] r@[i].creature_id == rows@[i].0 && r@[i].move_id
                == rows@[i].1 && r@[i].method == rows@[i].2,
{
    let mut out: Vec<Learnset> = Vec::new();
    let mut i: usize = 0;
    while i < rows.len()
        invariant
            i <= rows@.len(),
            out@.len() == i,
            forall|k: int|
                0 <= k < i ==> #[trigger] out@[k].creature_id == rows@[k].0 && out@[k].move_id
                    == rows@[k].1 && out@[k].method == rows@[k].2,
        decreases rows.len() - i,
    {
        out.push(Learnset { creature_id: rows[i].0, move_id: rows[i].1, method: rows[i].2.clone() });
        i = i + 1;
    }
    out
}

/// Move attributes from rows of (move id, unused, category, power, accuracy).
fn to_move_stats(rows: Vec<SqlRow>) -> (r: Vec<MoveStats>)
    ensures
        r@.len() == rows@.len(),
        forall|i: int|
            0 <= i < rows@.len() ==> #[trigger] r@[i].move_id == rows@[i].0 && r@[i].category
                == rows@[i].2 && r@[i].power == rows@[i].3 && r@[i].accuracy == rows@[i].4,
{
    let mut out: Vec<MoveStats> = Vec::new();
    let mut i: usize = 0;
    while i < rows.len()
        invariant
            i <= rows@.len(),
            out@.len() == i,
            forall|k: int|
                0 <= k < i ==> #[trigger] out@[k].move_id == rows@[k].0 && out@[k].category
                    == rows@[k].2 && out@[k].power == rows@[k].3 && out@[k].accuracy == rows@[k].4,
        decreases rows.len() - i,
    {
        out.push(
            MoveStats {
                move_id: rows[i].0,
                category: rows[i].2.clone(),
                power: rows[i].3,
                accuracy: rows[i].4,
            },
        );
        i = i + 1;
    }
    out
}

impl Database {
    /// Assembles a catalog from its tables' rows, refusing rows that break
    /// its integrity.
    pub fn from_rows(
        creatures: Vec<Entry>,
        groups: Vec<Entry>,
        memberships: Vec<Membership>,
        moves: Vec<Entry>,
        move_stats: Vec<MoveStats>,
        learnsets: Vec<Learnset>,
    ) -> (r: Result<Database, StoreError>)
        ensures
            (Database { creatures, groups, memberships, moves, move_stats, learnsets }).wf() <==> r is Ok,
            r matches Ok(db) ==> db == (Database {
                creatures,
                groups,
                memberships,
                moves,
                move_stats,
                learnsets,
            }),
            r matches Err(e) ==> e is Invalid,
    {
        let db = Database { creatures, groups, memberships, moves, move_stats, learnsets };
        if db.is_valid() {
            Ok(db)
        } else {
            Err(StoreError::Invalid)
        }
    }

    /// Builds the seeded catalog: creates an in-memory SQLite database, applies
    /// the schema and seed rows atomically, and reads the tables back in key
    /// order. Either the whole seed is there, with the catalog's integrity, or
    /// the call fails.
    pub fn open() -> (r: Result<Database, StoreError>)
        ensures
            r matches Ok(db) ==> db.wf() && db.holds_seed(),
    {
        let conn = match open_in_memory() {
            Ok(c) => c,
            Err(e) => return Err(StoreError::Backend(e)),
        };
        if let Err(e) = execute_batch(&conn, SEED_SQL) {
            return Err(StoreError::Backend(e));
        }
        let creatures = match query_rows(&conn, "SELECT pokemon_id, 0, name, NULL, NULL FROM pokemon ORDER BY pokemon_id") {
            Ok(v) => v,
            Err(e) => return Err(StoreError::Backend(e)),
        };
        let groups = match query_rows(&conn, "SELECT egg_group_id, 0, name, NULL, NULL FROM egg_group ORDER BY egg_group_id") {
            Ok(v) => v,
            Err(e) => return Err(StoreError::Backend(e)),
        };
        let memberships = match query_rows(&conn, "SELECT pokemon_id, egg_group_id, '', NULL, NULL FROM pokemon_egg_group ORDER BY pokemon_id, egg_group_id") {
            Ok(v) => v,
            Err(e) => return Err(StoreError::Backend(e)),
        };
        let moves = match query_rows(&conn, "SELECT move_id, 0, name, NULL, NULL FROM move ORDER BY move_id") {
            Ok(v) => v,
            Err(e) => return Err(StoreError::Backend(e)),
        };
        let move_stats = match query_rows(
            &conn,
            "SELECT move_id, 0, category, power, accuracy FROM move ORDER BY move_id",
        ) {
            Ok(v) => v,
            Err(e) => return Err(StoreError::Backend(e)),
        };
        let learnsets = match query_rows(&conn, "SELECT pokemon_id, move_id, method, NULL, NULL FROM pokemon_move ORDER BY pokemon_id, move_id") {
            Ok(v) => v,
            Err(e) => return Err(StoreError::Backend(e)),
        };
        let db = match Database::from_rows(
            to_entries(creatures),
            to_entries(groups),
            to_memberships(memberships),
            to_entries(moves),
            to_move_stats(move_stats),
            to_learnsets(learnsets),
        ) {
            Ok(db) => db,
            Err(e) => return Err(e),
        };
        if db.is_seeded() {
            Ok(db)
        } else {
            Err(StoreError::Invalid)
        }
    }
}

} // verus!
