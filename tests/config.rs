use judo::config::{Config, ConfigError, DBConfig, Theme};

fn db(name: &str, conn: &str) -> DBConfig {
    DBConfig { name: name.to_string(), connection_str: conn.to_string() }
}

fn config(default: &str, dbs: Vec<DBConfig>) -> Config {
    Config { default: default.to_string(), dbs, colours: Theme::default() }
}

#[test]
fn default_colours() {
    let c = config("a", vec![]);
    assert_eq!(c.foreground(), "#FCF1D5");
    assert_eq!(c.highlight(), "#FFA69E");
    assert_eq!(c.background(), "#002626");
}

#[test]
fn get_default_finds_the_one() {
    let c = config("work", vec![db("home", "sqlite:h.db"), db("work", "sqlite:w.db")]);
    let d = c.get_default().unwrap();
    assert_eq!(d.name, "work");
    assert_eq!(d.connection_str, "sqlite:w.db");
}

#[test]
fn get_default_not_found() {
    let c = config("other", vec![db("home", "sqlite:h.db")]);
    assert!(matches!(c.get_default(), Err(ConfigError::DefaultNotFound)));
    let empty = config("x", vec![]);
    assert!(matches!(empty.get_default(), Err(ConfigError::DefaultNotFound)));
}

#[test]
fn get_default_ambiguous() {
    let c = config("home", vec![db("home", "a"), db("x", "b"), db("home", "c")]);
    assert!(matches!(c.get_default(), Err(ConfigError::MultipleDefaults)));
}

#[test]
fn position_of_first_match() {
    let c = config("a", vec![db("a", "1"), db("b", "2"), db("b", "3")]);
    assert_eq!(c.position_of(&"b".to_string()), Some(1));
    assert_eq!(c.position_of(&"z".to_string()), None);
}

#[test]
fn add_and_set_default() {
    let mut c = Config::with_database(db("dojo", "sqlite:j.db"));
    assert_eq!(c.default, "dojo");
    c.add_database(db("extra", "sqlite:e.db"), false);
    assert_eq!(c.dbs.len(), 2);
    assert_eq!(c.default, "dojo");
    c.add_database(db("third", "sqlite:t.db"), true);
    assert_eq!(c.default, "third");
    c.set_default_db(1);
    assert_eq!(c.default, "extra");
}
