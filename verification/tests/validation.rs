use br_documents::DocumentNumber;
use br_documents::ErrorKind;

#[test]
fn sanitized_cpf_is_allowed() {
    assert_eq!(DocumentNumber::validate("96865090039"), Ok(()));
}

#[test]
fn formatted_cpf_is_allowed() {
    assert_eq!(DocumentNumber::validate("288.111.210-27"), Ok(()));
}

#[test]
fn sanitized_cnpj_is_allowed() {
    assert_eq!(DocumentNumber::validate("03165685000114"), Ok(()));
}

#[test]
fn formatted_cnpj_is_allowed() {
    assert_eq!(DocumentNumber::validate("89.654.922/0001-26"), Ok(()));
}

#[test]
fn formatted_all_equal_cpf_is_rejected() {
    assert_eq!(
        DocumentNumber::validate("111.111.111-11"),
        Err(ErrorKind::InvalidDocument)
    );
}

#[test]
fn sanitized_all_equal_cpf_is_rejected() {
    assert_eq!(
        DocumentNumber::validate("11111111111"),
        Err(ErrorKind::InvalidDocument)
    );
}

#[test]
fn sanitized_all_equal_cnpj_is_rejected() {
    assert_eq!(
        DocumentNumber::validate("11111111111111"),
        Err(ErrorKind::InvalidDocument)
    );
}

#[test]
fn all_zero_cnpj_is_rejected_by_uniformity() {
    // The all-zero sequence satisfies the CNPJ checksum arithmetic by
    // coincidence; the uniformity rule must still reject it.
    assert_eq!(
        DocumentNumber::validate("00000000000000"),
        Err(ErrorKind::InvalidDocument)
    );
}

#[test]
fn cpf_with_wrong_check_digits_is_rejected() {
    assert_eq!(
        DocumentNumber::validate("79888245131"),
        Err(ErrorKind::InvalidDocument)
    );
}

#[test]
fn formatted_cpf_with_wrong_check_digits_is_rejected() {
    assert_eq!(
        DocumentNumber::validate("798.882.451-31"),
        Err(ErrorKind::InvalidDocument)
    );
}

#[test]
fn cnpj_with_wrong_check_digits_is_rejected() {
    assert_eq!(
        DocumentNumber::validate("73361907000130"),
        Err(ErrorKind::InvalidDocument)
    );
}

#[test]
fn formatted_cnpj_with_wrong_check_digits_is_rejected() {
    assert_eq!(
        DocumentNumber::validate("73.361.907/0001-30"),
        Err(ErrorKind::InvalidDocument)
    );
}

#[test]
fn sanitized_cpf_with_invalid_characters_is_rejected() {
    assert_eq!(
        DocumentNumber::validate("272676S6021"),
        Err(ErrorKind::InvalidCharacters)
    );
}

#[test]
fn formatted_cpf_with_invalid_characters_is_rejected() {
    assert_eq!(
        DocumentNumber::validate("272.676.S60-21"),
        Err(ErrorKind::InvalidCharacters)
    );
}

#[test]
fn cpf_with_invalid_formatting_is_rejected() {
    assert_eq!(
        DocumentNumber::validate("272-676.560-21"),
        Err(ErrorKind::InvalidCharacters)
    );
}

#[test]
fn sanitized_cnpj_with_invalid_characters_is_rejected() {
    assert_eq!(
        DocumentNumber::validate("896S4922000126"),
        Err(ErrorKind::InvalidCharacters)
    );
}

#[test]
fn formatted_cnpj_with_invalid_characters_is_rejected() {
    assert_eq!(
        DocumentNumber::validate("66.114.93S/0001-07"),
        Err(ErrorKind::InvalidCharacters)
    );
}

#[test]
fn cnpj_with_invalid_formatting_is_rejected() {
    assert_eq!(
        DocumentNumber::validate("66.114-935/0001-07"),
        Err(ErrorKind::InvalidCharacters)
    );
}

#[test]
fn ten_digits_is_invalid_input() {
    assert_eq!(
        DocumentNumber::validate("2881121027"),
        Err(ErrorKind::InvalidInput)
    );
}

#[test]
fn twelve_digits_is_invalid_input() {
    assert_eq!(
        DocumentNumber::validate("288111221027"),
        Err(ErrorKind::InvalidInput)
    );
}

#[test]
fn thirteen_digits_is_invalid_input() {
    assert_eq!(
        DocumentNumber::validate("6611493500107"),
        Err(ErrorKind::InvalidInput)
    );
}

#[test]
fn fifteen_digits_is_invalid_input() {
    assert_eq!(
        DocumentNumber::validate("661149350000107"),
        Err(ErrorKind::InvalidInput)
    );
}

#[test]
fn short_formatted_cpf_is_invalid_input() {
    assert_eq!(
        DocumentNumber::validate("288.11.210-27"),
        Err(ErrorKind::InvalidInput)
    );
}

#[test]
fn long_formatted_cpf_is_invalid_input() {
    assert_eq!(
        DocumentNumber::validate("288.1112.210-27"),
        Err(ErrorKind::InvalidInput)
    );
}

#[test]
fn short_formatted_cnpj_is_invalid_input() {
    assert_eq!(
        DocumentNumber::validate("66.114-935/001-07"),
        Err(ErrorKind::InvalidInput)
    );
}

#[test]
fn long_formatted_cnpj_is_invalid_input() {
    assert_eq!(
        DocumentNumber::validate("66.114-935/00001-07"),
        Err(ErrorKind::InvalidInput)
    );
}

#[test]
fn empty_input_is_invalid_input() {
    assert_eq!(DocumentNumber::validate(""), Err(ErrorKind::InvalidInput));
}

#[test]
fn parse_wraps_sanitized_cpf_unchanged() {
    let doc = DocumentNumber::parse(String::from("96865090039")).unwrap();
    assert!(matches!(doc, DocumentNumber::CPF(_)));
    assert_eq!(doc.to_text(), "96865090039");
}

#[test]
fn parse_strips_formatted_cpf_to_digits() {
    let doc = DocumentNumber::parse(String::from("288.111.210-27")).unwrap();
    assert!(matches!(doc, DocumentNumber::CPF(_)));
    assert_eq!(doc.to_text(), "28811121027");
}

#[test]
fn parse_wraps_sanitized_cnpj_unchanged() {
    let doc = DocumentNumber::parse(String::from("03165685000114")).unwrap();
    assert!(matches!(doc, DocumentNumber::CNPJ(_)));
    assert_eq!(doc.to_text(), "03165685000114");
}

#[test]
fn parse_strips_formatted_cnpj_to_digits() {
    let doc = DocumentNumber::parse(String::from("89.654.922/0001-26")).unwrap();
    assert!(matches!(doc, DocumentNumber::CNPJ(_)));
    assert_eq!(doc.to_text(), "89654922000126");
}

#[test]
fn parse_reports_the_same_error_as_validate() {
    assert_eq!(
        DocumentNumber::parse(String::from("272676S6021")),
        Err(ErrorKind::InvalidCharacters)
    );
    assert_eq!(
        DocumentNumber::parse(String::from("79888245131")),
        Err(ErrorKind::InvalidDocument)
    );
    assert_eq!(
        DocumentNumber::parse(String::from("2881121027")),
        Err(ErrorKind::InvalidInput)
    );
}

#[test]
fn reparsing_canonical_text_gives_the_same_document() {
    let doc = DocumentNumber::parse(String::from("288.111.210-27")).unwrap();
    let again = DocumentNumber::parse(doc.to_text()).unwrap();
    assert_eq!(doc, again);
}

#[test]
fn error_kinds_are_distinguishable() {
    assert_ne!(ErrorKind::InvalidInput, ErrorKind::InvalidCharacters);
    assert_ne!(ErrorKind::InvalidCharacters, ErrorKind::InvalidDocument);
    assert_ne!(ErrorKind::InvalidDocument, ErrorKind::InvalidInput);
}
