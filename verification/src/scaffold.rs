//! The decisions behind the project-scaffolding collaborator.
//!
//! The collaborator itself shells out to a package manager and a
//! database-migration CLI and writes template files; none of that I/O lives
//! here. What does live here is everything it decides or computes on plain
//! values: which database engine a name denotes, whether the migration CLI's
//! version banner is one the scaffolding was tested with, and the fixed set
//! of dependency declarations written into a generated manifest.

use vstd::prelude::*;

use vstd::string::StrSliceExecFns;

verus! {

/// The command-line surface: the one supported command.
#[derive(Debug)]
pub enum Opt {
    New(New),
}

/// Arguments of the `new` command: where to create the project.
#[derive(Debug)]
pub struct New {
    pub path: String,
}

/// The database engines the scaffolding can set up.
#[derive(Clone, Copy, Debug, PartialEq, Eq, Structural)]
pub enum DB {
    PostgreSQL,
    MySql,
    Sqlite,
}

/// Why a database name was rejected: it names none of the supported engines.
#[derive(Clone, Copy, Debug, PartialEq, Eq, Structural)]
pub struct InvalidDbName;

impl DB {
    /// The engine a database name denotes, or [`InvalidDbName`] for any other
    /// name.
    pub fn from_str(input: &str) -> (r: Result<DB, InvalidDbName>)
        ensures
            match r {
                Ok(db) => match db {
                    DB::PostgreSQL => input@ == "postgres"@,
                    DB::MySql => input@ == "mysql"@,
                    DB::Sqlite => input@ == "sqlite"@,
                },
                Err(_) => input@ != "postgres"@ && input@ != "mysql"@ && input@ != "sqlite"@,
            },
    {
        let s: String = input.to_owned();
        if s == "postgres".to_owned() {
            Ok(DB::PostgreSQL)
        } else if s == "mysql".to_owned() {
            Ok(DB::MySql)
        } else if s == "sqlite".to_owned() {
            Ok(DB::Sqlite)
        } else {
            Err(InvalidDbName)
        }
    }
}

/// A whitespace character: what is stripped from the ends of a version
/// banner before comparing it.
pub open spec fn is_space(c: char) -> bool {
    c == ' ' || c == '\n' || c == '\t' || c == '\r'
}

/// `s` without its leading whitespace.
pub open spec fn trim_start_spec(s: Seq<char>) -> Seq<char>
    decreases s.len(),
{
    if s.len() > 0 && is_space(s[0]) {
        trim_start_spec(s.drop_first())
    } else {
        s
    }
}

/// `s` without its trailing whitespace.
pub open spec fn trim_end_spec(s: Seq<char>) -> Seq<char>
    decreases s.len(),
{
    if s.len() > 0 && is_space(s.last()) {
        trim_end_spec(s.drop_last())
    } else {
        s
    }
}

/// `s` without leading or trailing whitespace.
pub open spec fn trimmed(s: Seq<char>) -> Seq<char> {
    trim_end_spec(trim_start_spec(s))
}

fn is_space_char(c: char) -> (r: bool)
    ensures
        r == is_space(c),
{
    c == ' ' || c == '\n' || c == '\t' || c == '\r'
}

proof fn lemma_trim_start_at(s: Seq<char>, a: int)
    requires
        0 <= a <= s.len(),
        forall|k: int| 0 <= k < a ==> is_space(s[k]),
        a == s.len() || !is_space(s[a]),
    ensures
        trim_start_spec(s) == s.skip(a),
    decreases a,
{
    if a == 0 {
        assert(s.skip(0) =~= s);
    } else {
        assert(is_space(s[0]));
        assert(forall|k: int| 0 <= k < a - 1 ==> is_space(s.drop_first()[k]));
        assert(a - 1 == s.drop_first().len() || !is_space(s.drop_first()[a - 1]));
        lemma_trim_start_at(s.drop_first(), a - 1);
        assert(s.drop_first().skip(a - 1) =~= s.skip(a));
    }
}

proof fn lemma_trim_end_at(s: Seq<char>, b: int)
    requires
        0 <= b <= s.len(),
        forall|k: int| b <= k < s.len() ==> is_space(s[k]),
        b == 0 || !is_space(s[b - 1]),
    ensures
        trim_end_spec(s) == s.take(b),
    decreases s.len() - b,
{
    if b == s.len() {
        assert(s.take(b) =~= s);
    } else {
        assert(is_space(s.last()));
        assert(forall|k: int| b <= k < s.drop_last().len() ==> is_space(s.drop_last()[k]));
        lemma_trim_end_at(s.drop_last(), b);
        assert(s.drop_last().take(b) =~= s.take(b));
    }
}

/// `s` with leading and trailing whitespace removed.
pub fn trim(s: &str) -> (r: String)
    ensures
        r@ == trimmed(s@),
{
    let n = s.unicode_len();
    let mut start: usize = 0;
    while start < n && is_space_char(s.get_char(start))
        invariant
            start <= n,
            n == s@.len(),
            forall|k: int| 0 <= k < start ==> is_space(s@[k]),
        decreases n - start,
    {
        start = start + 1;
    }
    let mut end: usize = n;
    while end > start && is_space_char(s.get_char(end - 1))
        invariant
            start <= end <= n,
            n == s@.len(),
            forall|k: int| end <= k < n ==> is_space(s@[k]),
        decreases end,
    {
        end = end - 1;
    }
    let cut = s.substring_char(start, end);
    let r = cut.to_owned();
    proof {
        lemma_trim_start_at(s@, start as int);
        let t = s@.skip(start as int);
        assert(forall|k: int| end - start <= k < t.len() ==> is_space(t[k]));
        assert(end - start == 0 || !is_space(t[end - start - 1]));
        lemma_trim_end_at(t, end - start);
        assert(s@.subrange(start as int, end as int) =~= t.take(end - start));
    }
    r
}

/// The version banner of the one migration-CLI release this scaffolding was
/// tested with. The comparison ignores surrounding whitespace, as the CLI
/// prints the banner with a trailing newline.
pub fn migration_cli_version_supported(banner: &str) -> (r: bool)
    ensures
        r == (trimmed(banner@) == "diesel 1.4.0"@),
{
    let t = trim(banner);
    t == "diesel 1.4.0".to_owned()
}

/// What the scaffolding concluded about the migration CLI.
#[derive(Clone, Copy, Debug, PartialEq, Eq, Structural)]
pub enum MigrationCliStatus {
    /// The CLI binary was not found on the system.
    NotInstalled,
    /// The CLI is present at the one version the scaffolding was tested with.
    Supported,
    /// The CLI is present but at an untested version: usable, worth a
    /// warning, never fatal.
    Untested,
}

/// Classify the migration CLI from what the system reported: `None` when the
/// binary was not found, otherwise the banner its version flag printed.
pub fn classify_migration_cli(banner: Option<&str>) -> (r: MigrationCliStatus)
    ensures
        match banner {
            None => r is NotInstalled,
            Some(b) => if trimmed(b@) == "diesel 1.4.0"@ {
                r is Supported
            } else {
                r is Untested
            },
        },
{
    match banner {
        None => MigrationCliStatus::NotInstalled,
        Some(b) => if migration_cli_version_supported(b) {
            MigrationCliStatus::Supported
        } else {
            MigrationCliStatus::Untested
        },
    }
}

/// The fixed, hard-coded dependency declarations the scaffolding inserts into
/// a generated project's manifest: each pair is a crate name and the literal
/// manifest fragment giving its version requirement.
pub fn scaffold_dependencies() -> (r: Vec<(String, String)>)
    ensures
        r@.len() == 8,
        r@[0].0@ == "min-lib"@ && r@[0].1@ == "0.1"@,
        r@[1].0@ == "tracing"@ && r@[1].1@ == "0.1"@,
        r@[2].0@ == "tracing-subscriber"@ && r@[2].1@ == "0.2"@,
        r@[3].0@ == "tracing-futures"@ && r@[3].1@ == "0.2"@,
        r@[4].0@ == "serde_json"@ && r@[4].1@ == "1.0"@,
        r@[5].0@ == "serde"@ && r@[5].1@ == "{ version = '1.0', features = ['derive'] }"@,
        r@[6].0@ == "tokio"@ && r@[6].1@ == "{ version = '0.2', features = ['full'] }"@,
        r@[7].0@ == "diesel"@ && r@[7].1@
            == "{ version = '1.4', features = ['postgres', 'sqlite', 'mysql'] }"@,
{
    let mut deps: Vec<(String, String)> = Vec::new();
    deps.push(("min-lib".to_owned(), "0.1".to_owned()));
    deps.push(("tracing".to_owned(), "0.1".to_owned()));
    deps.push(("tracing-subscriber".to_owned(), "0.2".to_owned()));
    deps.push(("tracing-futures".to_owned(), "0.2".to_owned()));
    deps.push(("serde_json".to_owned(), "1.0".to_owned()));
    deps.push(("serde".to_owned(), "{ version = '1.0', features = ['derive'] }".to_owned()));
    deps.push(("tokio".to_owned(), "{ version = '0.2', features = ['full'] }".to_owned()));
    deps.push((
        "diesel".to_owned(),
        "{ version = '1.4', features = ['postgres', 'sqlite', 'mysql'] }".to_owned(),
    ));
    deps
}

} // verus!
