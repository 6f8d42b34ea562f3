use stft::{StftError, WindowType};

#[test]
fn test_window_type_from_string() {
    assert_eq!(
        WindowType::from_str("Hanning").unwrap(),
        WindowType::Hanning
    );
    assert_eq!(
        WindowType::from_str("hanning").unwrap(),
        WindowType::Hanning
    );
    assert_eq!(WindowType::from_str("hann").unwrap(), WindowType::Hanning);
    assert_eq!(
        WindowType::from_str("blackman").unwrap(),
        WindowType::Blackman
    );
}

#[test]
fn test_window_type_to_string() {
    assert_eq!(WindowType::Hanning.to_string(), "Hanning");
}

#[test]
fn test_window_types_to_strings() {
    assert_eq!(
        vec!["Hanning", "Hamming", "Blackman", "Nuttall", "None"],
        WindowType::values()
            .iter()
            .map(|x| x.to_string())
            .collect::<Vec<String>>()
    );
}

#[test]
fn unknown_name_is_refused() {
    assert_eq!(
        WindowType::from_str("kaiser"),
        Err(StftError::UnrecognizedWindowName)
    );
}

#[test]
fn every_name_parses_to_its_window_type() {
    for window_type in WindowType::values() {
        let name = window_type.to_string();
        assert_eq!(WindowType::from_str(&name), Ok(window_type));
        assert_eq!(WindowType::from_str(&name.to_uppercase()), Ok(window_type));
        assert_eq!(WindowType::from_str(&name.to_lowercase()), Ok(window_type));
        assert_eq!(name.parse::<WindowType>(), Ok(window_type));
    }
}

#[test]
fn names_and_aliases_ignore_case() {
    assert_eq!(WindowType::from_str("HANN"), Ok(WindowType::Hanning));
    assert_eq!(WindowType::from_str("Hann"), Ok(WindowType::Hanning));
    assert_eq!(WindowType::from_str("hAmMiNg"), Ok(WindowType::Hamming));
    assert_eq!(WindowType::from_str("NUTTALL"), Ok(WindowType::Nuttall));
    assert_eq!(WindowType::from_str("none"), Ok(WindowType::Rectangular));
    assert_eq!(WindowType::from_str("NONE"), Ok(WindowType::Rectangular));
    assert_eq!(
        WindowType::from_str("blac\u{212a}man"),
        Ok(WindowType::Blackman)
    );
}

#[test]
fn a_lowercase_name_is_looked_up_as_it_is() {
    assert_eq!(
        WindowType::from_lowercase("hanning"),
        Ok(WindowType::Hanning)
    );
    assert_eq!(WindowType::from_lowercase("hann"), Ok(WindowType::Hanning));
    assert_eq!(
        WindowType::from_lowercase("hamming"),
        Ok(WindowType::Hamming)
    );
    assert_eq!(
        WindowType::from_lowercase("blackman"),
        Ok(WindowType::Blackman)
    );
    assert_eq!(
        WindowType::from_lowercase("nuttall"),
        Ok(WindowType::Nuttall)
    );
    assert_eq!(
        WindowType::from_lowercase("none"),
        Ok(WindowType::Rectangular)
    );
    assert_eq!(
        WindowType::from_lowercase("Hanning"),
        Err(StftError::UnrecognizedWindowName)
    );
}

#[test]
fn other_text_is_refused() {
    for text in ["", " hann", "hann ", "han", "hanning2", "rectangular", "triangular"] {
        assert_eq!(
            WindowType::from_str(text),
            Err(StftError::UnrecognizedWindowName)
        );
    }
}
