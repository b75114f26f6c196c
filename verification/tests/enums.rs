use fsapp::enums::{CompressFormat, OnError, SortOrder};

#[test]
fn on_error_parses_kebab_case_values() {
    assert_eq!("continue".parse::<OnError>().unwrap(), OnError::Continue);
    assert_eq!("abort".parse::<OnError>().unwrap(), OnError::Abort);
    assert_eq!("undo".parse::<OnError>().unwrap(), OnError::Undo);
}

#[test]
fn on_error_parsing_is_case_insensitive() {
    assert_eq!("Continue".parse::<OnError>().unwrap(), OnError::Continue);
    assert_eq!("ABORT".parse::<OnError>().unwrap(), OnError::Abort);
}

#[test]
fn on_error_rejects_unknown_values() {
    assert!("retry".parse::<OnError>().is_err());
}

#[test]
fn compress_format_parses_kebab_case_values() {
    assert_eq!("zip".parse::<CompressFormat>().unwrap(), CompressFormat::Zip);
    assert_eq!("gzip".parse::<CompressFormat>().unwrap(), CompressFormat::Gzip);
    assert!("tar".parse::<CompressFormat>().is_err());
}

#[test]
fn defaults_match_file_engine_builder_defaults() {
    assert_eq!(OnError::default(), OnError::Continue);
    assert_eq!(SortOrder::default(), SortOrder::Desc);
}

#[test]
fn unknown_variant_message_names_the_input() {
    assert_eq!("retry".parse::<OnError>().unwrap_err(), "invalid variant: retry");
}

#[test]
fn sort_order_names_are_kebab_case() {
    assert_eq!(SortOrder::Asc.name(), "asc");
    assert_eq!("DESC".parse::<SortOrder>().unwrap(), SortOrder::Desc);
}
