use sidecar_supervisor::save::{after_dialog, after_write, csv_filter, DialogChoice, SaveStep};

#[test]
fn chosen_path_is_written_to() {
    assert_eq!(after_dialog(DialogChoice::Path), SaveStep::Write);
}

#[test]
fn other_location_is_refused() {
    assert_eq!(
        after_dialog(DialogChoice::Other),
        SaveStep::Finished(Err(String::from("Unsupported path type")))
    );
}

#[test]
fn cancelled_dialog_saves_nothing() {
    assert_eq!(after_dialog(DialogChoice::Cancelled), SaveStep::Finished(Ok(false)));
}

#[test]
fn write_result_decides_the_outcome() {
    assert_eq!(after_write(None), Ok(true));
    assert_eq!(
        after_write(Some(String::from("permission denied"))),
        Err(String::from("permission denied"))
    );
}

#[test]
fn dialog_offers_csv_files() {
    let filter = csv_filter();
    assert_eq!(filter.name, "CSV Files");
    assert_eq!(filter.extensions, vec![String::from("csv")]);
}
