//! The database model: the rows kept per day, the schema and its upgrade
//! plan for older databases, and the statements built from data.

use vstd::prelude::*;
use vstd::string::StringExecFns;
use crate::text::{chars_of, string_from_chars};

verus! {

/// The stored products of one day.
#[derive(Debug, Clone, PartialEq, Eq)]
pub struct ArtifactRow {
    pub date: String,
    pub music_json: String,
    pub art_json: String,
    pub music_wav_path: Option<String>,
    pub art_png_path: Option<String>,
    pub sentence: Option<String>,
    pub english_sentence: Option<String>,
    pub theme_explanation: Option<String>,
    pub time_range_label: Option<String>,
    pub funny_summary: Option<String>,
    pub created_at: i64,
}

/// Longest mood word that is stored, in characters.
pub const MOOD_MAX_CHARS: usize = 64;

/// The stored form of a mood word: its first 64 characters.
pub open spec fn spec_truncate_mood(mood: Seq<char>) -> Seq<char> {
    if mood.len() <= MOOD_MAX_CHARS { mood } else { mood.take(MOOD_MAX_CHARS as int) }
}

/// Cuts a mood word to the stored length (see [`spec_truncate_mood`]).
pub fn truncate_mood(mood: &str) -> (t: String)
    ensures
        t@ == spec_truncate_mood(mood@),
{
    let cs = chars_of(mood);
    if cs.len() <= MOOD_MAX_CHARS {
        return String::from_str(mood);
    }
    let mut kept: Vec<char> = Vec::new();
    let mut i: usize = 0;
    while i < MOOD_MAX_CHARS
        invariant
            i <= MOOD_MAX_CHARS,
            MOOD_MAX_CHARS < cs@.len(),
            kept@ == cs@.take(i as int),
        decreases MOOD_MAX_CHARS - i,
    {
        kept.push(cs[i]);
        i = i + 1;
        assert(cs@.take(i as int) == cs@.take((i - 1) as int).push(cs@[i - 1]));
    }
    string_from_chars(&kept)
}

/// The statement that inserts `n` key events at once: one
/// `(?, ?, ?, ?)` group per event, separated by commas.
pub open spec fn spec_insert_many_sql(n: nat) -> Seq<char>
    decreases n,
{
    if n == 0 {
        "INSERT INTO key_events (key_code, timestamp_ms, session_id, modifiers) VALUES "@
    } else if n == 1 {
        spec_insert_many_sql(0) + "(?, ?, ?, ?)"@
    } else {
        spec_insert_many_sql((n - 1) as nat) + ", "@ + "(?, ?, ?, ?)"@
    }
}

/// Builds the multi-row insert statement for `n` events (see
/// [`spec_insert_many_sql`]).
pub fn insert_many_sql(n: usize) -> (s: String)
    ensures
        s@ == spec_insert_many_sql(n as nat),
{
    let mut s = String::from_str("INSERT INTO key_events (key_code, timestamp_ms, session_id, modifiers) VALUES ");
    let mut i: usize = 0;
    while i < n
        invariant
            i <= n,
            s@ == spec_insert_many_sql(i as nat),
        decreases n - i,
    {
        if i > 0 {
            s.append(", ");
        }
        s.append("(?, ?, ?, ?)");
        i = i + 1;
    }
    s
}

/// The schema of a fresh database: key events with their indexes, daily
/// summaries and daily products.
pub const SCHEMA_SQL: &'static str = "
        CREATE TABLE IF NOT EXISTS key_events (
            id INTEGER PRIMARY KEY AUTOINCREMENT,
            key_code INTEGER NOT NULL,
            timestamp_ms INTEGER NOT NULL,
            session_id TEXT NOT NULL,
            modifiers INTEGER NOT NULL DEFAULT 0
        );
        CREATE INDEX IF NOT EXISTS idx_key_events_ts ON key_events(timestamp_ms);
        CREATE INDEX IF NOT EXISTS idx_key_events_session ON key_events(session_id);

        CREATE TABLE IF NOT EXISTS daily_summary (
            date TEXT PRIMARY KEY,
            total_keys INTEGER NOT NULL,
            top_keys_json TEXT NOT NULL,
            theme_word TEXT NOT NULL,
            mood_word TEXT,
            intensity REAL NOT NULL DEFAULT 0.0,
            steadiness REAL NOT NULL DEFAULT 0.0,
            fluency REAL NOT NULL DEFAULT 0.0,
            activity_hours INTEGER NOT NULL DEFAULT 0,
            key_class_json TEXT NOT NULL DEFAULT '{}',
            first_active_ms INTEGER NOT NULL DEFAULT 0,
            created_at INTEGER NOT NULL
        );

        CREATE TABLE IF NOT EXISTS artifacts (
            date TEXT PRIMARY KEY,
            music_json TEXT NOT NULL,
            art_json TEXT NOT NULL,
            music_wav_path TEXT,
            art_png_path TEXT,
            sentence TEXT,
            english_sentence TEXT,
            theme_explanation TEXT,
            time_range_label TEXT,
            funny_summary TEXT,
            created_at INTEGER NOT NULL
        );
        ";

/// One upgrade of an older database: when `column` is missing from
/// `table`, run `upgrade_sql`.
#[derive(Debug, Clone, PartialEq, Eq)]
pub struct ColumnUpgrade {
    pub table: &'static str,
    pub column: &'static str,
    pub upgrade_sql: &'static str,
}

/// The upgrades, in the order they are applied: the five indicator columns
/// of the daily summary (probed by `intensity`), its first-activity time,
/// the sentence of the products, then the four later text columns of the
/// products, each probed by itself.
pub open spec fn spec_column_upgrades() -> Seq<(Seq<char>, Seq<char>, Seq<char>)> {
    seq![
        ("daily_summary"@, "intensity"@, "ALTER TABLE daily_summary ADD COLUMN intensity REAL NOT NULL DEFAULT 0.0;\n             ALTER TABLE daily_summary ADD COLUMN steadiness REAL NOT NULL DEFAULT 0.0;\n             ALTER TABLE daily_summary ADD COLUMN fluency REAL NOT NULL DEFAULT 0.0;\n             ALTER TABLE daily_summary ADD COLUMN activity_hours INTEGER NOT NULL DEFAULT 0;\n             ALTER TABLE daily_summary ADD COLUMN key_class_json TEXT NOT NULL DEFAULT '{}';"@),
        ("daily_summary"@, "first_active_ms"@, "ALTER TABLE daily_summary ADD COLUMN first_active_ms INTEGER NOT NULL DEFAULT 0;"@),
        ("artifacts"@, "sentence"@, "ALTER TABLE artifacts ADD COLUMN sentence TEXT;"@),
        ("artifacts"@, "english_sentence"@, "ALTER TABLE artifacts ADD COLUMN english_sentence TEXT;"@),
        ("artifacts"@, "theme_explanation"@, "ALTER TABLE artifacts ADD COLUMN theme_explanation TEXT;"@),
        ("artifacts"@, "time_range_label"@, "ALTER TABLE artifacts ADD COLUMN time_range_label TEXT;"@),
        ("artifacts"@, "funny_summary"@, "ALTER TABLE artifacts ADD COLUMN funny_summary TEXT;"@),
    ]
}

/// The view of an upgrade.
pub open spec fn upgrade_view(u: ColumnUpgrade) -> (Seq<char>, Seq<char>, Seq<char>) {
    (u.table@, u.column@, u.upgrade_sql@)
}

fn upgrade(table: &'static str, column: &'static str, upgrade_sql: &'static str) -> (u: ColumnUpgrade)
    ensures
        upgrade_view(u) == (table@, column@, upgrade_sql@),
{
    ColumnUpgrade { table, column, upgrade_sql }
}

/// The upgrades of an older database (see [`spec_column_upgrades`]).
pub fn column_upgrades() -> (us: Vec<ColumnUpgrade>)
    ensures
        us@.len() == spec_column_upgrades().len(),
        forall|i: int| 0 <= i < us@.len() ==> upgrade_view(#[trigger] us@[i]) == spec_column_upgrades()[i],
{
    let mut us: Vec<ColumnUpgrade> = Vec::new();
    us.push(upgrade("daily_summary", "intensity", "ALTER TABLE daily_summary ADD COLUMN intensity REAL NOT NULL DEFAULT 0.0;\n             ALTER TABLE daily_summary ADD COLUMN steadiness REAL NOT NULL DEFAULT 0.0;\n             ALTER TABLE daily_summary ADD COLUMN fluency REAL NOT NULL DEFAULT 0.0;\n             ALTER TABLE daily_summary ADD COLUMN activity_hours INTEGER NOT NULL DEFAULT 0;\n             ALTER TABLE daily_summary ADD COLUMN key_class_json TEXT NOT NULL DEFAULT '{}';"));
    us.push(upgrade("daily_summary", "first_active_ms", "ALTER TABLE daily_summary ADD COLUMN first_active_ms INTEGER NOT NULL DEFAULT 0;"));
    us.push(upgrade("artifacts", "sentence", "ALTER TABLE artifacts ADD COLUMN sentence TEXT;"));
    us.push(upgrade("artifacts", "english_sentence", "ALTER TABLE artifacts ADD COLUMN english_sentence TEXT;"));
    us.push(upgrade("artifacts", "theme_explanation", "ALTER TABLE artifacts ADD COLUMN theme_explanation TEXT;"));
    us.push(upgrade("artifacts", "time_range_label", "ALTER TABLE artifacts ADD COLUMN time_range_label TEXT;"));
    us.push(upgrade("artifacts", "funny_summary", "ALTER TABLE artifacts ADD COLUMN funny_summary TEXT;"));
    us
}

/// The query that counts the columns named `column` in `table`.
pub open spec fn spec_column_probe_sql(table: Seq<char>, column: Seq<char>) -> Seq<char> {
    "SELECT COUNT(*) FROM pragma_table_info('"@ + table + "') WHERE name='"@ + column + "'"@
}

/// Builds the column probe of an upgrade (see [`spec_column_probe_sql`]).
pub fn column_probe_sql(table: &str, column: &str) -> (s: String)
    ensures
        s@ == spec_column_probe_sql(table@, column@),
{
    let mut s = String::from_str("SELECT COUNT(*) FROM pragma_table_info('");
    s.append(table);
    s.append("') WHERE name='");
    s.append(column);
    s.append("'");
    s
}

/// Whether a probe found the column: a positive count; a failed probe
/// counts as missing.
pub fn column_present(probe: Option<i64>) -> (b: bool)
    ensures
        b == (probe matches Some(n) && n > 0),
{
    match probe {
        Some(n) => n > 0,
        None => false,
    }
}

/// Law of mood storage: the stored mood is a prefix of the given one, at
/// most 64 characters long, and equal to it when it was short enough.
pub proof fn law_truncated_mood_is_prefix(mood: Seq<char>)
    ensures
        spec_truncate_mood(mood).len() <= MOOD_MAX_CHARS,
        spec_truncate_mood(mood) == mood.take(spec_truncate_mood(mood).len() as int),
        mood.len() <= MOOD_MAX_CHARS ==> spec_truncate_mood(mood) == mood,
{
    if mood.len() <= MOOD_MAX_CHARS {
        assert(mood.take(mood.len() as int) =~= mood);
    }
}

} // verus!
