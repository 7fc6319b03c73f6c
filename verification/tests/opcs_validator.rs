use codelist_validator::codelist::{CodeList, CodeListType};
use codelist_validator::errors::CodeListError;
use codelist_validator::metadata::{Metadata, MetadataSource};
use codelist_validator::opcs_validator::OPCSValidator;
use codelist_validator::validator_errors::CodeListValidatorError;

// Helper function to create test metadata
fn create_test_metadata() -> Metadata {
    Metadata {
        source: MetadataSource::ManuallyCreated,
        authors: Some(vec!["Caroline Morton".to_string()]),
        version: Some("2024-12-19".to_string()),
        description: Some("A test codelist".to_string()),
    }
}

// Helper function to create a test codelist with default options and test metadata
fn create_test_codelist() -> Result<CodeList, CodeListError> {
    let codelist = CodeList::new(CodeListType::OPCS, create_test_metadata());
    Ok(codelist)
}

#[test]
fn test_validate_code_with_valid_code() -> Result<(), CodeListError> {
    let codelist = create_test_codelist()?;
    let code = "A01";
    assert!(codelist.validate_code(code).is_ok());
    Ok(())
}

#[test]
fn test_validate_code_with_invalid_code_length_less_than_3_characters() -> Result<(), CodeListError>
{
    let codelist = create_test_codelist()?;
    let code = "A0";
    let error = codelist.validate_code(code).unwrap_err();
    assert!(
        matches!(error, CodeListValidatorError::InvalidCodeLength{code: c, reason: r} if c == code && r == "OPCS code A0 is less than 3 characters in length")
    );
    Ok(())
}

#[test]
fn test_validate_code_with_invalid_code_length_greater_than_5_characters(
) -> Result<(), CodeListError> {
    let codelist = create_test_codelist()?;
    let code = "A01000";
    let error = codelist.validate_code(code).unwrap_err();
    assert!(
        matches!(error, CodeListValidatorError::InvalidCodeLength{code: c, reason: r} if c == code && r == "OPCS code A01000 is greater than 5 characters in length")
    );
    Ok(())
}

#[test]
fn test_validate_code_with_invalid_code_first_character_not_a_letter() -> Result<(), CodeListError>
{
    let codelist = create_test_codelist()?;
    let code = "101";
    let error = codelist.validate_code(code).unwrap_err();
    assert!(
        matches!(error, CodeListValidatorError::InvalidCodeContents{code: c, reason: r} if c == code && r == "OPCS code 101 does not match the expected format")
    );
    Ok(())
}

#[test]
fn test_validate_code_with_invalid_code_second_character_not_a_number() -> Result<(), CodeListError>
{
    let codelist = create_test_codelist()?;
    let code = "AA1";
    let error = codelist.validate_code(code).unwrap_err();
    assert!(
        matches!(error, CodeListValidatorError::InvalidCodeContents{code: c, reason: r} if c == code && r == "OPCS code AA1 does not match the expected format")
    );
    Ok(())
}

#[test]
fn test_validate_code_with_invalid_code_third_character_not_a_number() -> Result<(), CodeListError>
{
    let codelist = create_test_codelist()?;
    let code = "A0A";
    let error = codelist.validate_code(code).unwrap_err();
    assert!(
        matches!(error, CodeListValidatorError::InvalidCodeContents{code: c, reason: r} if c == code && r == "OPCS code A0A does not match the expected format")
    );
    Ok(())
}

#[test]
fn test_validate_code_with_invalid_code_no_fifth_character_after_dot() -> Result<(), CodeListError>
{
    let codelist = create_test_codelist()?;
    let code = "A01.";
    let error = codelist.validate_code(code).unwrap_err();
    assert!(
        matches!(error, CodeListValidatorError::InvalidCodeContents{code: c, reason: r} if c == code && r == "OPCS code A01. does not match the expected format")
    );
    Ok(())
}

#[test]
fn test_validate_code_with_invalid_code_fifth_character_after_dot_not_a_number(
) -> Result<(), CodeListError> {
    let codelist = create_test_codelist()?;
    let code = "A01.A";
    let error = codelist.validate_code(code).unwrap_err();
    assert!(
        matches!(error, CodeListValidatorError::InvalidCodeContents{code: c, reason: r} if c == code && r == "OPCS code A01.A does not match the expected format")
    );
    Ok(())
}

#[test]
fn test_validate_code_with_invalid_code_fifth_character_not_a_number() -> Result<(), CodeListError>
{
    let codelist = create_test_codelist()?;
    let code = "A010A";
    let error = codelist.validate_code(code).unwrap_err();
    assert!(
        matches!(error, CodeListValidatorError::InvalidCodeContents{code: c, reason: r} if c == code && r == "OPCS code A010A does not match the expected format")
    );
    Ok(())
}

#[test]
fn test_validate_codelist_with_valid_codes() -> Result<(), CodeListError> {
    let mut codelist = create_test_codelist()?;
    codelist.add_entry("C01".to_string(), "Excision of eye".to_string())?;
    codelist.add_entry("C02".to_string(), "Extirpation of lesion of orbit".to_string())?;
    codelist.add_entry("C03".to_string(), "Insertion of prosthesis of eye".to_string())?;
    codelist.add_entry("C04".to_string(), "Attention to prosthesis of eye".to_string())?;
    codelist.add_entry("C05".to_string(), "Plastic repair of orbit ".to_string())?;
    codelist.add_entry(
        "L31.4".to_string(),
        "Insertion Artery Carotid Stent Transluminal Percutaneous".to_string(),
    )?;
    codelist.add_entry(
        "L35.3".to_string(),
        "Insertion Artery Cerebral Stent Transluminal Percutaneous".to_string(),
    )?;
    codelist.add_entry(
        "L47.4".to_string(),
        "Insertion Artery Coeliac Stent Transluminal Percutaneous".to_string(),
    )?;
    assert!(codelist.validate_all_code().is_ok());
    Ok(())
}

#[test]
fn test_validate_codelist_with_all_invalid_codes() -> Result<(), CodeListError> {
    let mut codelist = create_test_codelist()?;
    codelist.add_entry("A0".to_string(), "Excision of eye".to_string())?;
    codelist.add_entry("A01000".to_string(), "Extirpation of lesion of orbit".to_string())?;
    codelist.add_entry("101".to_string(), "Insertion of prosthesis of eye".to_string())?;
    codelist.add_entry("AA1".to_string(), "Attention to prosthesis of eye".to_string())?;
    codelist.add_entry("A0A".to_string(), "Plastic repair of orbit ".to_string())?;
    codelist.add_entry(
        "A01.".to_string(),
        "Insertion Artery Carotid Stent Transluminal Percutaneous".to_string(),
    )?;
    codelist.add_entry(
        "A01.A".to_string(),
        "Insertion Artery Cerebral Stent Transluminal Percutaneous".to_string(),
    )?;
    codelist.add_entry(
        "A010A".to_string(),
        "Insertion Artery Coeliac Stent Transluminal Percutaneous".to_string(),
    )?;
    let error = codelist.validate_all_code().unwrap_err();
    let error_reason = error.render();

    assert!(
        error_reason.contains("A0")
            && error_reason.contains("Code A0 is an invalid length")
            && error_reason.contains("OPCS code A0 is less than 3 characters in length")
    );

    assert!(
        error_reason.contains("A01000")
            && error_reason.contains("Code A01000 is an invalid length")
            && error_reason.contains("OPCS code A01000 is greater than 5 characters in length")
    );

    assert!(
        error_reason.contains("101")
            && error_reason.contains("Code 101 contents is invalid")
            && error_reason.contains("OPCS code 101 does not match the expected format")
    );

    assert!(
        error_reason.contains("AA1")
            && error_reason.contains("Code AA1 contents is invalid")
            && error_reason.contains("OPCS code AA1 does not match the expected format")
    );

    assert!(
        error_reason.contains("A0A")
            && error_reason.contains("Code A0A contents is invalid")
            && error_reason.contains("OPCS code A0A does not match the expected format")
    );

    assert!(
        error_reason.contains("A01.")
            && error_reason.contains("Code A01. contents is invalid")
            && error_reason.contains("OPCS code A01. does not match the expected format")
    );

    assert!(
        error_reason.contains("A01.A")
            && error_reason.contains("Code A01.A contents is invalid")
            && error_reason.contains("OPCS code A01.A does not match the expected format")
    );

    assert!(
        error_reason.contains("A010A")
            && error_reason.contains("Code A010A contents is invalid")
            && error_reason.contains("OPCS code A010A does not match the expected format")
    );

    assert!(
        matches!(error, CodeListValidatorError::InvalidCodelist { reasons } if reasons.len() == 8)
    );
    Ok(())
}

#[test]
fn test_validate_codelist_with_mixed_invalid_and_valid_codes() -> Result<(), CodeListError> {
    let mut codelist = create_test_codelist()?;
    codelist.add_entry("C01".to_string(), "Excision of eye".to_string())?;
    codelist.add_entry("A01000".to_string(), "Extirpation of lesion of orbit".to_string())?;
    codelist.add_entry("C03".to_string(), "Insertion of prosthesis of eye".to_string())?;
    codelist.add_entry("AA1".to_string(), "Attention to prosthesis of eye".to_string())?;
    codelist.add_entry("C05".to_string(), "Plastic repair of orbit ".to_string())?;
    codelist.add_entry(
        "A01.".to_string(),
        "Insertion Artery Carotid Stent Transluminal Percutaneous".to_string(),
    )?;
    codelist.add_entry(
        "L35.3".to_string(),
        "Insertion Artery Cerebral Stent Transluminal Percutaneous".to_string(),
    )?;
    codelist.add_entry(
        "A010A".to_string(),
        "Insertion Artery Coeliac Stent Transluminal Percutaneous".to_string(),
    )?;
    let error = codelist.validate_all_code().unwrap_err();
    let error_reason = error.render();
    println!("{}", error_reason);

    assert!(
        error_reason.contains("A01000")
            && error_reason.contains("Code A01000 is an invalid length")
            && error_reason.contains("OPCS code A01000 is greater than 5 characters in length")
    );

    assert!(
        error_reason.contains("AA1")
            && error_reason.contains("Code AA1 contents is invalid")
            && error_reason.contains("OPCS code AA1 does not match the expected format")
    );

    assert!(
        error_reason.contains("A01.")
            && error_reason.contains("Code A01. contents is invalid")
            && error_reason.contains("OPCS code A01. does not match the expected format")
    );

    assert!(
        error_reason.contains("A010A")
            && error_reason.contains("Code A010A contents is invalid")
            && error_reason.contains("OPCS code A010A does not match the expected format")
    );

    assert!(
        matches!(error, CodeListValidatorError::InvalidCodelist { reasons } if reasons.len() == 4)
    );
    Ok(())
}
