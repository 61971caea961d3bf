use jni::objects::JString;
use jni::{InitArgsBuilder, JNIEnv, JNIVersion, JavaVM};
use tracing_slf4j::dispatch::{receive_log_call, LogRecord};
use tracing_slf4j::jvm::Runtime;
use tracing_slf4j::severity::Severity;

fn receive(env: &mut JNIEnv<'_>, code: i32, message: &JString<'_>) -> Option<LogRecord> {
    let mut runtime = Runtime::new(env);
    receive_log_call(&mut runtime, code, message)
}

#[test]
fn a_call_from_the_runtime_gives_a_record_of_its_message() {
    let args = InitArgsBuilder::new().version(JNIVersion::V8).build().unwrap();
    let vm = JavaVM::new(args).unwrap();
    let mut env = vm.attach_current_thread().unwrap();

    let hello = env.new_string("hello").unwrap();
    assert_eq!(
        receive(&mut env, 2, &hello),
        Some(LogRecord { severity: Severity::Info, text: String::from("hello") })
    );
    assert_eq!(
        receive(&mut env, 0, &hello),
        Some(LogRecord { severity: Severity::Error, text: String::from("hello") })
    );
    assert_eq!(
        receive(&mut env, 9, &hello),
        Some(LogRecord { severity: Severity::Trace, text: String::from("hello") })
    );

    let empty = env.new_string("").unwrap();
    assert_eq!(
        receive(&mut env, 1, &empty),
        Some(LogRecord { severity: Severity::Warn, text: String::new() })
    );

    let accented = env.new_string("gr\u{fc}\u{df}e \u{20ac}").unwrap();
    assert_eq!(
        receive(&mut env, 3, &accented),
        Some(LogRecord { severity: Severity::Debug, text: String::from("gr\u{fc}\u{df}e \u{20ac}") })
    );

    // A character beyond U+FFFF, which the runtime holds as two surrogates.
    let beyond = env.new_string("ok \u{1f600}").unwrap();
    assert_eq!(
        receive(&mut env, 0, &beyond),
        Some(LogRecord { severity: Severity::Error, text: String::from("ok \u{1f600}") })
    );

    // The character zero, which the runtime hands out in two bytes.
    let with_nul = env.new_string("a\u{0}b").unwrap();
    assert_eq!(
        receive(&mut env, 0, &with_nul),
        Some(LogRecord { severity: Severity::Error, text: String::from("a\u{0}b") })
    );
}
