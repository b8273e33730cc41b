use tracing::subscriber::NoSubscriber;
use tracing_ext_ffi_subscriber::ReturnCode;

#[test]
fn second_install_fails_and_first_stays_active() {
    let first = tracing::subscriber::set_global_default(NoSubscriber::new());
    assert_eq!(ReturnCode::from_install(first.is_err()), ReturnCode::Success);
    let second = tracing::subscriber::set_global_default(NoSubscriber::default());
    assert_eq!(ReturnCode::from_install(second.is_err()), ReturnCode::Failure);
    assert_eq!(ReturnCode::from_install(second.is_err()).code(), 1);
    tracing::dispatcher::get_default(|d| assert!(d.is::<NoSubscriber>()));
}
