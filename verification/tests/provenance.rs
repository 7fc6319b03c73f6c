use codelist_validator::errors::CodeListError;
use codelist_validator::metadata::MetadataSource;
use codelist_validator::provenance::Provenance;

// helper function to get the time difference between the current time and the given date
fn get_time_difference(date: i64) -> i64 {
    let now = chrono::Utc::now().timestamp_millis();
    (date - now).abs()
}

fn create_test_provenance() -> Provenance {
    Provenance::new(MetadataSource::LoadedFromFile, None)
}

#[test]
fn test_new_provenance_no_contributors() {
    let provenance = create_test_provenance();
    assert_eq!(provenance.source, MetadataSource::LoadedFromFile);
    let time_difference = get_time_difference(provenance.created_date);
    assert!(time_difference < 1000);
    let time_difference = get_time_difference(provenance.last_modified_date);
    assert!(time_difference < 1000);
    assert_eq!(provenance.contributors, Vec::<String>::new());
}

#[test]
fn test_new_provenance_with_contributors() {
    let provenance = Provenance::new(
        MetadataSource::LoadedFromFile,
        Some(vec!["Example Contributor".to_string()]),
    );
    assert_eq!(provenance.source, MetadataSource::LoadedFromFile);
    assert_eq!(provenance.contributors, vec!["Example Contributor".to_string()]);
    let time_difference = get_time_difference(provenance.created_date);
    assert!(time_difference < 1000);
    let time_difference = get_time_difference(provenance.last_modified_date);
    assert!(time_difference < 1000);
}

#[test]
fn test_update_last_modified_date() {
    let mut provenance = create_test_provenance();
    provenance.update_last_modified_date();
    let time_difference = get_time_difference(provenance.last_modified_date);
    assert!(time_difference < 1000);
}

#[test]
fn test_add_contributor() {
    let mut provenance = create_test_provenance();
    provenance.add_contributor("Example Contributor".to_string());
    assert_eq!(provenance.contributors, vec!["Example Contributor".to_string()]);
}

#[test]
fn test_remove_contributor() -> Result<(), CodeListError> {
    let mut provenance = create_test_provenance();
    provenance.add_contributor("Example Contributor".to_string());
    provenance.remove_contributor("Example Contributor".to_string())?;
    assert_eq!(provenance.contributors, Vec::<String>::new());
    Ok(())
}

#[test]
fn test_remove_contributor_not_found() {
    let mut provenance = create_test_provenance();
    let error = provenance.remove_contributor("Example Contributor".to_string()).unwrap_err();
    let error_string = error.render();
    assert_eq!(error_string, "Contributor Example Contributor not found");
}

#[test]
fn test_add_contributor_already_recorded_is_kept_once() {
    let mut provenance = create_test_provenance();
    provenance.add_contributor("Example Contributor".to_string());
    provenance.add_contributor("Example Contributor".to_string());
    assert_eq!(provenance.contributors, vec!["Example Contributor".to_string()]);
}

#[test]
fn test_new_provenance_collapses_duplicate_contributors() {
    let provenance = Provenance::new(
        MetadataSource::ManuallyCreated,
        Some(vec![
            "First Contributor".to_string(),
            "Second Contributor".to_string(),
            "First Contributor".to_string(),
        ]),
    );
    assert_eq!(
        provenance.contributors,
        vec!["First Contributor".to_string(), "Second Contributor".to_string()]
    );
}

#[test]
fn test_remove_contributor_keeps_the_others() -> Result<(), CodeListError> {
    let mut provenance = create_test_provenance();
    provenance.add_contributor("First Contributor".to_string());
    provenance.add_contributor("Second Contributor".to_string());
    provenance.remove_contributor("First Contributor".to_string())?;
    assert_eq!(provenance.contributors, vec!["Second Contributor".to_string()]);
    Ok(())
}

#[test]
fn test_update_last_modified_date_keeps_created_date() {
    let mut provenance = create_test_provenance();
    let created = provenance.created_date;
    provenance.update_last_modified_date();
    assert_eq!(provenance.created_date, created);
}
