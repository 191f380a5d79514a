use cardinal::config::{Cardinal, CardinalError, FileItem, FromTableError};
use cardinal::tomlx::{get_integer, get_string, get_table, CheckError, TomlTable, TomlValue};

fn to_table(t: toml::Table) -> TomlTable {
    t.into_iter().map(|(k, v)| (k, to_value(v))).collect()
}

fn to_value(v: toml::Value) -> TomlValue {
    match v {
        toml::Value::String(s) => TomlValue::String(s),
        toml::Value::Integer(n) => TomlValue::Integer(n),
        toml::Value::Float(_) => TomlValue::Float,
        toml::Value::Boolean(b) => TomlValue::Boolean(b),
        toml::Value::Datetime(d) => TomlValue::Datetime(d.to_string()),
        toml::Value::Array(a) => TomlValue::Array(a.into_iter().map(to_value).collect()),
        toml::Value::Table(t) => TomlValue::Table(to_table(t)),
    }
}

fn parse(text: &str) -> TomlTable {
    to_table(text.parse::<toml::Table>().expect("test table is well formed"))
}

fn entry(key: &str, value: TomlValue) -> (String, TomlValue) {
    (key.to_string(), value)
}

fn file(key: &str, source: &str) -> (String, TomlValue) {
    entry(key, TomlValue::Table(vec![entry("source", TomlValue::String(source.to_string()))]))
}

#[test]
fn extended_table() {
    let dummy_table = parse(
        "
            [files.\".zshrc\"]
            source = \".zshrc\"
            ",
    );

    let files = get_table(dummy_table, "files");
    assert!(files.is_ok());

    let dummy_file = get_table(files.unwrap(), ".zshrc");
    assert!(dummy_file.is_ok());
    assert!(get_string(&dummy_file.unwrap(), "source").is_ok());
}

#[test]
fn extended_value() {
    let dummy_value = TomlValue::Integer(42);

    assert!(dummy_value.as_integer().is_some());
}

#[test]
fn typed_lookups_report_missing_and_mismatch() {
    let t = vec![entry("n", TomlValue::Integer(7)), entry("s", TomlValue::String("x".to_string()))];
    assert_eq!(get_integer(&t, "n").unwrap(), 7);
    assert_eq!(get_string(&t, "s").unwrap(), "x");
    assert!(matches!(get_string(&t, "n"), Err(CheckError::Mismatch)));
    assert!(matches!(get_string(&t, "absent"), Err(CheckError::Missing)));
    assert!(matches!(get_table(t, "s"), Err(CheckError::Mismatch)));
    assert_eq!(TomlValue::Boolean(true).as_integer(), None);
}

#[test]
fn file_item_from_table() {
    let table = vec![entry("source", TomlValue::String(".zshrc".to_string()))];
    let item = FileItem::from_table(".zshrc", &table).expect("valid item");
    assert_eq!(item.path, ".zshrc");
    assert_eq!(item.source, ".zshrc");
    let err = FileItem::from_table(".zshrc", &Vec::new());
    assert!(matches!(err, Err(FromTableError::InvalidField(k, f, CheckError::Missing))
        if k == ".zshrc" && f == "source"));
}

#[test]
fn cardinal_from_config() {
    let config = parse(
        "
            [files.\".zshrc\"]
            source = \"zsh/zshrc\"
            [files.\".vimrc\"]
            source = \"vim/vimrc\"
            ",
    );
    let c = Cardinal::new(config).expect("valid config");
    assert_eq!(c.files.len(), 2);
    let vim = c.files.iter().find(|f| f.path == ".vimrc").expect("vimrc entry");
    assert_eq!(vim.source, "vim/vimrc");
}

#[test]
fn cardinal_reports_first_bad_entry() {
    let config = vec![entry(
        "files",
        TomlValue::Table(vec![
            file(".zshrc", "zsh/zshrc"),
            entry(".bad", TomlValue::Integer(1)),
            entry(".worse", TomlValue::Table(vec![entry("source", TomlValue::Boolean(false))])),
        ]),
    )];
    let r = Cardinal::new(config);
    assert!(matches!(r, Err(CardinalError::InvalidFileType(k)) if k == ".bad"));

    let config = vec![entry(
        "files",
        TomlValue::Table(vec![entry(".worse", TomlValue::Table(vec![entry("source", TomlValue::Boolean(false))]))]),
    )];
    let r = Cardinal::new(config);
    assert!(matches!(r, Err(CardinalError::InvalidFileSchema(FromTableError::InvalidField(_, _, CheckError::Mismatch)))));
}

#[test]
fn cardinal_needs_a_files_table() {
    assert!(matches!(Cardinal::new(Vec::new()),
        Err(CardinalError::InvalidField(f, CheckError::Missing)) if f == "files"));
    let config = vec![entry("files", TomlValue::String("nope".to_string()))];
    assert!(matches!(Cardinal::new(config),
        Err(CardinalError::InvalidField(f, CheckError::Mismatch)) if f == "files"));
}
