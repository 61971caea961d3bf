use jni::errors::{Error, JniError};
use jni::objects::JClass;
use tracing_slf4j::registrar::{
    binding_outcome, class_lookup_outcome, BridgeError, NativeMethodDescriptor,
};

#[test]
fn the_bridge_binding_names_the_logger_method() {
    let binding = NativeMethodDescriptor::log_bridge();
    assert_eq!(binding.class_name, "nl/mrfriendly/tracing/TracingSlf4jImpl");
    assert_eq!(binding.method_name, "tracingSlf4jImpl");
    assert_eq!(binding.signature, "(ILjava/lang/String;)V");
}

#[test]
fn the_bridge_binding_is_always_the_same() {
    assert_eq!(NativeMethodDescriptor::log_bridge(), NativeMethodDescriptor::log_bridge());
}

#[test]
fn a_failed_lookup_is_class_not_found() {
    let pending = class_lookup_outcome(Err(Error::JavaException));
    assert!(matches!(pending, Err(BridgeError::ClassNotFound)));
    let null = class_lookup_outcome(Err(Error::NullPtr("FindClass result")));
    assert!(matches!(null, Err(BridgeError::ClassNotFound)));
    let detached = class_lookup_outcome(Err(Error::JniCall(JniError::ThreadDetached)));
    assert!(matches!(detached, Err(BridgeError::ClassNotFound)));
}

#[test]
fn a_class_that_was_found_is_passed_on() {
    let outcome = class_lookup_outcome(Ok(JClass::default()));
    match outcome {
        Ok(class) => assert!(class.as_raw().is_null()),
        Err(error) => panic!("the lookup had succeeded, yet: {error:?}"),
    }
}

#[test]
fn an_accepted_binding_is_success() {
    assert_eq!(binding_outcome(Ok(())), Ok(()));
}

#[test]
fn a_refused_binding_is_a_registration_error() {
    assert_eq!(binding_outcome(Err(Error::JavaException)), Err(BridgeError::RegistrationError));
    assert_eq!(
        binding_outcome(Err(Error::JniCall(JniError::Unknown))),
        Err(BridgeError::RegistrationError)
    );
    assert_eq!(
        binding_outcome(Err(Error::JniCall(JniError::Other(-7)))),
        Err(BridgeError::RegistrationError)
    );
}

#[test]
fn the_two_errors_differ() {
    assert_ne!(BridgeError::ClassNotFound, BridgeError::RegistrationError);
}
