use codecat::errors::RegistryError;

#[test]
fn descriptions_name_each_failure_class() {
    assert_eq!(RegistryError::ConfigError.describe(), "missing or malformed configuration");
    assert_eq!(RegistryError::KeyDecodeError.describe(), "failed to decode the private key");
    assert_eq!(RegistryError::NetworkError.describe(), "network request failed");
    assert_eq!(RegistryError::NotFoundError.describe(), "not found");
    assert_eq!(RegistryError::SubmissionError.describe(), "failed to submit the transaction");
    assert_eq!(RegistryError::ExecutionError.describe(), "transaction execution failed");
    assert_eq!(RegistryError::TimeoutError.describe(), "timed out waiting for finalization");
}

#[test]
fn error_kinds_are_distinguishable() {
    assert_ne!(RegistryError::ExecutionError, RegistryError::TimeoutError);
    assert_ne!(RegistryError::NetworkError, RegistryError::NotFoundError);
}
