use vstd::prelude::*;

verus! {

pub const DEFAULT_DB_NAME: &'static str = "dojo";

pub const DEFAULT_FG_COLOUR: &'static str = "#FCF1D5";

pub const DEFAULT_HL_COLOUR: &'static str = "#FFA69E";

pub const DEFAULT_BG_COLOUR: &'static str = "#002626";

/// Colours of the interface, each as a colour name or `#RRGGBB` string.
pub struct Theme {
    pub background: String,
    pub foreground: String,
    pub highlight: String,
}

/// A named database and the connection string that reaches it.
pub struct DBConfig {
    pub name: String,
    pub connection_str: String,
}

/// The configured databases, the name of the one opened at start, and the colours.
pub struct Config {
    pub default: String,
    pub dbs: Vec<DBConfig>,
    pub colours: Theme,
}

/// Why the default database cannot be picked out of the configuration.
#[derive(PartialEq, Eq, Structural, Debug, Clone, Copy)]
pub enum ConfigError {
    /// No configured database carries the default name.
    DefaultNotFound,
    /// More than one configured database carries the default name.
    MultipleDefaults,
}

impl Default for Theme {
    fn default() -> (r: Theme)
        ensures
            r.background@ == DEFAULT_BG_COLOUR@,
            r.foreground@ == DEFAULT_FG_COLOUR@,
            r.highlight@ == DEFAULT_HL_COLOUR@,
    {
        Theme {
            background: DEFAULT_BG_COLOUR.to_owned(),
            foreground: DEFAULT_FG_COLOUR.to_owned(),
            highlight: DEFAULT_HL_COLOUR.to_owned(),
        }
    }
}

impl DBConfig {
    /// The same name and connection string.
    pub open spec fn same_as(&self, other: &DBConfig) -> bool {
        self.name@ == other.name@ && self.connection_str@ == other.connection_str@
    }

    pub fn duplicate(&self) -> (r: DBConfig)
        ensures
            r.same_as(self),
    {
        DBConfig { name: self.name.clone(), connection_str: self.connection_str.clone() }
    }
}

/// How many of `dbs` carry the name `name`.
pub open spec fn count_named(dbs: Seq<DBConfig>, name: Seq<char>) -> nat
    decreases dbs.len(),
{
    if dbs.len() == 0 {
        0
    } else {
        count_named(dbs.drop_last(), name) + if dbs.last().name@ == name {
            1nat
        } else {
            0nat
        }
    }
}

proof fn lemma_count_named_positive(dbs: Seq<DBConfig>, name: Seq<char>, i: int)
    requires
        0 <= i < dbs.len(),
        dbs[i].name@ == name,
    ensures
        count_named(dbs, name) >= 1,
    decreases dbs.len(),
{
    if i < dbs.len() - 1 {
        lemma_count_named_positive(dbs.drop_last(), name, i);
    }
}

proof fn lemma_count_named_two(dbs: Seq<DBConfig>, name: Seq<char>, i: int, j: int)
    requires
        0 <= i < j < dbs.len(),
        dbs[i].name@ == name,
        dbs[j].name@ == name,
    ensures
        count_named(dbs, name) >= 2,
    decreases dbs.len(),
{
    if j < dbs.len() - 1 {
        lemma_count_named_two(dbs.drop_last(), name, i, j);
    } else {
        lemma_count_named_positive(dbs.drop_last(), name, i);
    }
}

impl Config {
    /// A configuration with a single database, which is the default, and the default colours.
    pub fn with_database(db: DBConfig) -> (r: Config)
        ensures
            r.default@ == db.name@,
            r.dbs@.len() == 1,
            r.dbs@[0].same_as(&db),
            r.colours.background@ == DEFAULT_BG_COLOUR@,
            r.colours.foreground@ == DEFAULT_FG_COLOUR@,
            r.colours.highlight@ == DEFAULT_HL_COLOUR@,
    {
        let default = db.name.clone();
        let mut dbs: Vec<DBConfig> = Vec::new();
        dbs.push(db);
        Config { default, dbs, colours: Theme::default() }
    }

    /// Index of the first database named `name`.
    pub fn position_of(&self, name: &String) -> (r: Option<usize>)
        ensures
            r matches Some(i) ==> i < self.dbs@.len() && self.dbs@[i as int].name@ == name@
                && forall|j: int| 0 <= j < i ==> self.dbs@[j].name@ != name@,
            r is None ==> forall|j: int| 0 <= j < self.dbs@.len() ==> self.dbs@[j].name@ != name@,
    {
        let mut i: usize = 0;
        while i < self.dbs.len()
            invariant
                i <= self.dbs@.len(),
                forall|j: int| 0 <= j < i ==> self.dbs@[j].name@ != name@,
            decreases self.dbs@.len() - i,
        {
            if self.dbs[i].name == *name {
                return Some(i);
            }
            i = i + 1;
        }
        None
    }

    /// Make the database at `index` the default.
    pub fn set_default_db(&mut self, index: usize)
        requires
            index < old(self).dbs@.len(),
        ensures
            final(self).default@ == old(self).dbs@[index as int].name@,
            final(self).dbs@ == old(self).dbs@,
            final(self).colours == old(self).colours,
    {
        self.default = self.dbs[index].name.clone();
    }

    /// Append a database, and make it the default when asked to.
    pub fn add_database(&mut self, db: DBConfig, set_as_default: bool)
        ensures
            final(self).dbs@ == old(self).dbs@.push(db),
            set_as_default ==> final(self).default@ == db.name@,
            !set_as_default ==> final(self).default == old(self).default,
            final(self).colours == old(self).colours,
    {
        if set_as_default {
            self.default = db.name.clone();
        }
        self.dbs.push(db);
    }

    pub fn foreground(&self) -> (r: &String)
        ensures
            r@ == self.colours.foreground@,
    {
        &self.colours.foreground
    }

    pub fn highlight(&self) -> (r: &String)
        ensures
            r@ == self.colours.highlight@,
    {
        &self.colours.highlight
    }

    pub fn background(&self) -> (r: &String)
        ensures
            r@ == self.colours.background@,
    {
        &self.colours.background
    }

    /// The one database that carries the default name.
    pub fn get_default(&self) -> (r: Result<DBConfig, ConfigError>)
        ensures
            count_named(self.dbs@, self.default@) == 0 <==> r == Err::<DBConfig, ConfigError>(
                ConfigError::DefaultNotFound,
            ),
            count_named(self.dbs@, self.default@) > 1 <==> r == Err::<DBConfig, ConfigError>(
                ConfigError::MultipleDefaults,
            ),
            count_named(self.dbs@, self.default@) == 1 <==> r is Ok,
            r matches Ok(d) ==> exists|i: int|
                0 <= i < self.dbs@.len() && d.same_as(&self.dbs@[i]) && self.dbs@[i].name@
                    == self.default@,
    {
        let mut count: usize = 0;
        let mut found: usize = 0;
        let mut i: usize = 0;
        while i < self.dbs.len()
            invariant
                i <= self.dbs@.len(),
                count == count_named(self.dbs@.subrange(0, i as int), self.default@),
                count <= i,
                count >= 1 ==> found < i && self.dbs@[found as int].name@ == self.default@,
            decreases self.dbs@.len() - i,
        {
            proof {
                assert(self.dbs@.subrange(0, i + 1).drop_last() =~= self.dbs@.subrange(
                    0,
                    i as int,
                ));
            }
            if self.dbs[i].name == self.default {
                if count == 0 {
                    found = i;
                }
                count = count + 1;
            }
            i = i + 1;
        }
        proof {
            assert(self.dbs@.subrange(0, i as int) =~= self.dbs@);
        }
        if count == 0 {
            Err(ConfigError::DefaultNotFound)
        } else if count == 1 {
            Ok(self.dbs[found].duplicate())
        } else {
            Err(ConfigError::MultipleDefaults)
        }
    }
}

} // verus!
