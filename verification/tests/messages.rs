use admin_panel::controllers::job::delete_failure_message;

#[test]
fn delete_failure_names_the_job() {
    assert_eq!(
        delete_failure_message("01JDM0X8EVAM823JZBGKYNBA99"),
        "Unable to delete job id '01JDM0X8EVAM823JZBGKYNBA99'"
    );
}
