use jni::objects::JObject;
use jni::{InitArgsBuilder, JNIEnv, JNIVersion, JavaVM, NativeMethod};
use tracing_slf4j::jvm::Runtime;
use tracing_slf4j::registrar::{register_log_fn, BridgeError, NativeMethodDescriptor};

/// The class `nl.mrfriendly.tracing.TracingSlf4jImpl` with the one member
/// `public static native void tracingSlf4jImpl(String)`, as a class file of
/// version 52: the method lacks the severity code.
fn logger_class_without_code() -> Vec<u8> {
    vec![
        0xca, 0xfe, 0xba, 0xbe, 0x00, 0x00, 0x00, 0x34, 0x00, 0x0c, 0x0a, 0x00,
        0x02, 0x00, 0x03, 0x07, 0x00, 0x04, 0x0c, 0x00, 0x05, 0x00, 0x06, 0x01,
        0x00, 0x10, 0x6a, 0x61, 0x76, 0x61, 0x2f, 0x6c, 0x61, 0x6e, 0x67, 0x2f,
        0x4f, 0x62, 0x6a, 0x65, 0x63, 0x74, 0x01, 0x00, 0x06, 0x3c, 0x69, 0x6e,
        0x69, 0x74, 0x3e, 0x01, 0x00, 0x03, 0x28, 0x29, 0x56, 0x07, 0x00, 0x08,
        0x01, 0x00, 0x26, 0x6e, 0x6c, 0x2f, 0x6d, 0x72, 0x66, 0x72, 0x69, 0x65,
        0x6e, 0x64, 0x6c, 0x79, 0x2f, 0x74, 0x72, 0x61, 0x63, 0x69, 0x6e, 0x67,
        0x2f, 0x54, 0x72, 0x61, 0x63, 0x69, 0x6e, 0x67, 0x53, 0x6c, 0x66, 0x34,
        0x6a, 0x49, 0x6d, 0x70, 0x6c, 0x01, 0x00, 0x04, 0x43, 0x6f, 0x64, 0x65,
        0x01, 0x00, 0x10, 0x74, 0x72, 0x61, 0x63, 0x69, 0x6e, 0x67, 0x53, 0x6c,
        0x66, 0x34, 0x6a, 0x49, 0x6d, 0x70, 0x6c, 0x01, 0x00, 0x15, 0x28, 0x4c,
        0x6a, 0x61, 0x76, 0x61, 0x2f, 0x6c, 0x61, 0x6e, 0x67, 0x2f, 0x53, 0x74,
        0x72, 0x69, 0x6e, 0x67, 0x3b, 0x29, 0x56, 0x00, 0x21, 0x00, 0x07, 0x00,
        0x02, 0x00, 0x00, 0x00, 0x00, 0x00, 0x02, 0x00, 0x01, 0x00, 0x05, 0x00,
        0x06, 0x00, 0x01, 0x00, 0x09, 0x00, 0x00, 0x00, 0x11, 0x00, 0x01, 0x00,
        0x01, 0x00, 0x00, 0x00, 0x05, 0x2a, 0xb7, 0x00, 0x01, 0xb1, 0x00, 0x00,
        0x00, 0x00, 0x01, 0x09, 0x00, 0x0a, 0x00, 0x0b, 0x00, 0x00, 0x00, 0x00,
    ]
}

fn register(env: &mut JNIEnv<'_>, entry: &NativeMethod) -> Result<(), BridgeError> {
    let mut runtime = Runtime::new(env);
    register_log_fn(&mut runtime, entry)
}

#[test]
fn registering_against_another_signature_fails_with_registration_error() {
    let args = InitArgsBuilder::new().version(JNIVersion::V8).build().unwrap();
    let vm = JavaVM::new(args).unwrap();
    let mut env = vm.attach_current_thread().unwrap();
    let binding = NativeMethodDescriptor::log_bridge();
    env.define_class(binding.class_name, &JObject::null(), &logger_class_without_code()).unwrap();

    let entry = NativeMethod {
        name: binding.method_name.into(),
        sig: binding.signature.into(),
        fn_ptr: std::ptr::null_mut(),
    };
    assert_eq!(register(&mut env, &entry), Err(BridgeError::RegistrationError));
}
