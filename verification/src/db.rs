use vstd::prelude::*;

verus! {

/// The database drivers the service can connect with.
#[derive(Debug, Clone, Copy, PartialEq, Eq, Structural)]
pub enum DbDriver {
    Sqlite,
    Mysql,
    Mssql,
    Pg,
}

/// The driver that a configured driver name selects, if any: exactly
/// `sqlite`, `mysql`, `mssql` and `pg` are known.
pub open spec fn driver_named(name: Seq<char>) -> Option<DbDriver> {
    if name == "sqlite"@ {
        Some(DbDriver::Sqlite)
    } else if name == "mysql"@ {
        Some(DbDriver::Mysql)
    } else if name == "mssql"@ {
        Some(DbDriver::Mssql)
    } else if name == "pg"@ {
        Some(DbDriver::Pg)
    } else {
        None
    }
}

/// Exactly four names select a driver, each its own: `sqlite`, `mysql`,
/// `mssql` and `pg`. Every other name, however close (`postgresql`,
/// `SQLite`, `pg `), selects none.
pub proof fn law_only_the_four_names_select_a_driver(name: Seq<char>)
    ensures
        driver_named(name) is Some <==> (name == "sqlite"@ || name == "mysql"@ || name == "mssql"@
            || name == "pg"@),
        driver_named("sqlite"@) == Some(DbDriver::Sqlite),
        driver_named("mysql"@) == Some(DbDriver::Mysql),
        driver_named("mssql"@) == Some(DbDriver::Mssql),
        driver_named("pg"@) == Some(DbDriver::Pg),
{
    reveal_strlit("sqlite");
    reveal_strlit("mysql");
    reveal_strlit("mssql");
    reveal_strlit("pg");
    assert("mysql"@[0] != "sqlite"@[0]);
    assert("mssql"@[0] != "sqlite"@[0]);
    assert("mssql"@[1] != "mysql"@[1]);
    assert("pg"@ != "sqlite"@);
    assert("pg"@ != "mysql"@);
    assert("pg"@ != "mssql"@);
}

fn same_text(a: &str, b: &str) -> (same: bool)
    ensures
        same == (a@ == b@),
{
    let a_owned = a.to_owned();
    let b_owned = b.to_owned();
    a_owned == b_owned
}

impl DbDriver {
    /// Selects the driver for a configured driver name; an unknown name
    /// selects none (the service refuses to start on it).
    pub fn from_name(name: &str) -> (driver: Option<DbDriver>)
        ensures
            driver == driver_named(name@),
            driver is Some <==> (name@ == "sqlite"@ || name@ == "mysql"@ || name@ == "mssql"@
                || name@ == "pg"@),
            name@ == "sqlite"@ ==> driver == Some(DbDriver::Sqlite),
            name@ == "mysql"@ ==> driver == Some(DbDriver::Mysql),
            name@ == "mssql"@ ==> driver == Some(DbDriver::Mssql),
            name@ == "pg"@ ==> driver == Some(DbDriver::Pg),
    {
        proof {
            law_only_the_four_names_select_a_driver(name@);
        }
        if same_text(name, "sqlite") {
            Some(DbDriver::Sqlite)
        } else if same_text(name, "mysql") {
            Some(DbDriver::Mysql)
        } else if same_text(name, "mssql") {
            Some(DbDriver::Mssql)
        } else if same_text(name, "pg") {
            Some(DbDriver::Pg)
        } else {
            None
        }
    }
}

} // verus!
