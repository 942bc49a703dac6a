use peach_web::common::{
    passed_on, registration_failure, save_dns_configuration, save_password_form,
    save_reset_password_form, DnsCall, DnsProgress, Failure, FailureKind, PasswordCall,
    PasswordProgress, DOMAIN_ALREADY_REGISTERED,
};
use peach_web::error::PeachWebError;
use peach_web::forms::{DnsForm, PasswordForm, ResetPasswordForm};
use peach_web::response::Step;

fn dns_form(enable_dyndns: bool) -> DnsForm {
    DnsForm {
        external_domain: "peach.example.org".to_string(),
        enable_dyndns,
        dynamic_domain: "blue".to_string(),
    }
}

fn failure(display: &str, kind: FailureKind) -> Failure {
    Failure { display: display.to_string(), kind }
}

fn already_registered() -> FailureKind {
    FailureKind::JsonRpc {
        server_code: Some(-32030),
        debug: "Error { code: ServerError(-32030), message: \"Domain already exists\", data: None }"
            .to_string(),
    }
}

// runs the steps of saving, with the outcome of each call given
fn run_dns(
    form: &DnsForm,
    set_external_domain: Result<(), Failure>,
    set_dyndns_enabled: Result<(), Failure>,
    previous_dyn_domain: &str,
    registered: Result<(), Failure>,
) -> (Vec<DnsCall>, Result<(), PeachWebError>) {
    let mut progress = DnsProgress::new();
    let mut calls = Vec::new();
    loop {
        match save_dns_configuration(form, &progress) {
            Step::Call(call) => {
                match &call {
                    DnsCall::SetExternalDomain(_) => {
                        progress.set_external_domain = Some(set_external_domain.clone())
                    }
                    DnsCall::SetDyndnsEnabledValue(_) => {
                        progress.set_dyndns_enabled = Some(set_dyndns_enabled.clone())
                    }
                    DnsCall::LoadDynDomain => {
                        progress.previous_dyn_domain = Some(previous_dyn_domain.to_string())
                    }
                    DnsCall::RegisterDomain(_) => progress.registered = Some(registered.clone()),
                }
                calls.push(call);
            }
            Step::Done(saved) => return (calls, saved),
        }
    }
}

#[test]
fn previously_registered_domain_has_a_message_of_its_own() {
    assert_eq!(DOMAIN_ALREADY_REGISTERED, -32030);
    let (calls, saved) = run_dns(
        &dns_form(true),
        Ok(()),
        Ok(()),
        "red.dyn.peachcloud.org",
        Err(failure("JSON-RPC error", already_registered())),
    );
    assert_eq!(
        calls,
        vec![
            DnsCall::SetExternalDomain("peach.example.org".to_string()),
            DnsCall::SetDyndnsEnabledValue(true),
            DnsCall::LoadDynDomain,
            DnsCall::RegisterDomain("blue.dyn.peachcloud.org".to_string()),
        ]
    );
    let error = saved.unwrap_err();
    assert_eq!(
        error,
        PeachWebError::FailedToRegisterDynDomain {
            msg: "Error registering domain: blue.dyn.peachcloud.org was previously registered"
                .to_string()
        }
    );
    assert_eq!(
        error.to_string(),
        "Error registering domain: blue.dyn.peachcloud.org was previously registered"
    );
}

#[test]
fn other_registration_failures_have_the_general_message() {
    let other_code = FailureKind::JsonRpc {
        server_code: Some(-32031),
        debug: "Error { code: ServerError(-32031) }".to_string(),
    };
    assert_eq!(
        registration_failure(&other_code, "blue.dyn.peachcloud.org"),
        "Failed to register dyndns domain Error { code: ServerError(-32031) }"
    );
    let no_server_code =
        FailureKind::JsonRpc { server_code: None, debug: "Error { code: ParseError }".to_string() };
    assert_eq!(
        registration_failure(&no_server_code, "blue.dyn.peachcloud.org"),
        "Failed to register dyndns domain Error { code: ParseError }"
    );
    let client = FailureKind::Client { debug: "TransportError".to_string() };
    assert_eq!(
        registration_failure(&client, "blue.dyn.peachcloud.org"),
        "Failed to register dyndns domain: TransportError"
    );
    assert_eq!(
        registration_failure(&FailureKind::Other, "blue.dyn.peachcloud.org"),
        "Failed to register dyndns domain"
    );
    assert_eq!(
        registration_failure(&already_registered(), "x.dyn.peachcloud.org"),
        "Error registering domain: x.dyn.peachcloud.org was previously registered"
    );
}

#[test]
fn dns_configuration_is_saved_step_by_step() {
    let unused = || Err(failure("unused", FailureKind::Other));

    // dynamic DNS disabled: the two writes, no registration
    let (calls, saved) = run_dns(&dns_form(false), Ok(()), Ok(()), "", unused());
    assert_eq!(
        calls,
        vec![
            DnsCall::SetExternalDomain("peach.example.org".to_string()),
            DnsCall::SetDyndnsEnabledValue(false),
        ]
    );
    assert_eq!(saved, Ok(()));

    // the domain is the one configured before: it is not registered again
    let (calls, saved) = run_dns(&dns_form(true), Ok(()), Ok(()), "blue.dyn.peachcloud.org", unused());
    assert_eq!(calls.len(), 3);
    assert_eq!(calls[2], DnsCall::LoadDynDomain);
    assert_eq!(saved, Ok(()));

    // a new domain is registered
    let (calls, saved) = run_dns(&dns_form(true), Ok(()), Ok(()), "", Ok(()));
    assert_eq!(calls.len(), 4);
    assert_eq!(calls[3], DnsCall::RegisterDomain("blue.dyn.peachcloud.org".to_string()));
    assert_eq!(saved, Ok(()));

    // a write that fails ends the saving
    let (calls, saved) =
        run_dns(&dns_form(true), Err(failure("read-only", FailureKind::Other)), Ok(()), "", Ok(()));
    assert_eq!(calls.len(), 1);
    assert_eq!(
        saved,
        Err(PeachWebError::PeachLibError { source: "read-only".to_string(), msg: String::new() })
    );
    let (calls, saved) =
        run_dns(&dns_form(true), Ok(()), Err(failure("read-only", FailureKind::Other)), "", Ok(()));
    assert_eq!(calls.len(), 2);
    assert_eq!(saved.unwrap_err().to_string(), "read-only: ");
}

fn run_password(
    next: impl Fn(&PasswordProgress) -> Step<PasswordCall, Result<(), PeachWebError>>,
    verified: Result<(), Failure>,
    validated: Result<(), Failure>,
    set: Result<(), Failure>,
) -> (Vec<PasswordCall>, Result<(), PeachWebError>) {
    let mut progress = PasswordProgress::new();
    let mut calls = Vec::new();
    loop {
        match next(&progress) {
            Step::Call(call) => {
                match &call {
                    PasswordCall::VerifyPassword(_) | PasswordCall::VerifyTemporaryPassword(_) => {
                        progress.verified = Some(verified.clone())
                    }
                    PasswordCall::ValidateNewPasswords(_, _) => {
                        progress.validated = Some(validated.clone())
                    }
                    PasswordCall::SetNewPassword(_) => progress.set = Some(set.clone()),
                }
                calls.push(call);
            }
            Step::Done(saved) => return (calls, saved),
        }
    }
}

#[test]
fn password_is_verified_validated_and_set() {
    let form = PasswordForm {
        old_password: "old".to_string(),
        new_password1: "new".to_string(),
        new_password2: "new2".to_string(),
    };
    let wrong = || Err(failure("wrong", FailureKind::Other));

    let (calls, saved) = run_password(|p| save_password_form(&form, p), Ok(()), Ok(()), Ok(()));
    assert_eq!(
        calls,
        vec![
            PasswordCall::VerifyPassword("old".to_string()),
            PasswordCall::ValidateNewPasswords("new".to_string(), "new2".to_string()),
            PasswordCall::SetNewPassword("new".to_string()),
        ]
    );
    assert_eq!(saved, Ok(()));

    let (calls, saved) = run_password(|p| save_password_form(&form, p), wrong(), Ok(()), Ok(()));
    assert_eq!(calls.len(), 1);
    assert_eq!(saved.unwrap_err().to_string(), "wrong: ");

    let (calls, saved) = run_password(|p| save_password_form(&form, p), Ok(()), wrong(), Ok(()));
    assert_eq!(calls.len(), 2);
    assert_eq!(saved, Err(passed_on(&failure("wrong", FailureKind::Other))));

    let (calls, saved) = run_password(|p| save_password_form(&form, p), Ok(()), Ok(()), wrong());
    assert_eq!(calls.len(), 3);
    assert!(saved.is_err());

    let reset = ResetPasswordForm {
        temporary_password: "temp".to_string(),
        new_password1: "new".to_string(),
        new_password2: "new".to_string(),
    };
    let (calls, saved) =
        run_password(|p| save_reset_password_form(&reset, p), Ok(()), Ok(()), Ok(()));
    assert_eq!(
        calls,
        vec![
            PasswordCall::VerifyTemporaryPassword("temp".to_string()),
            PasswordCall::ValidateNewPasswords("new".to_string(), "new".to_string()),
            PasswordCall::SetNewPassword("new".to_string()),
        ]
    );
    assert_eq!(saved, Ok(()));
}

#[test]
fn errors_display_as_they_did() {
    assert_eq!(
        PeachWebError::from_serde("EOF while parsing".to_string()).to_string(),
        "Error loading serde json"
    );
    assert_eq!(
        PeachWebError::from_yaml("bad indentation".to_string()).to_string(),
        "Error loading peach-config yaml"
    );
    assert_eq!(
        PeachWebError::FailedToRegisterDynDomain { msg: "no".to_string() }.to_string(),
        "no"
    );
    assert_eq!(
        PeachWebError::PeachLibError { source: "io".to_string(), msg: "while saving".to_string() }
            .to_string(),
        "io: while saving"
    );
}
