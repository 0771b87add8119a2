//! The three liveness probes, run against the host's Java virtual machine.

use crate::health::ProbeReport;
use vstd::prelude::*;

verus! {

/// The handle of a Java virtual machine, `jni::JavaVM`: carried through,
/// never looked into.
#[verifier::external_type_specification]
#[verifier::external_body]
pub struct ExJavaVM(jni::JavaVM);

/// A session attached to the virtual machine, `jni::JNIEnv`: carried
/// through, never looked into.
#[verifier::external_type_specification]
#[verifier::external_body]
pub struct ExJNIEnv<'local>(jni::JNIEnv<'local>);

/// The error of a call into the virtual machine, `jni::errors::Error`:
/// only its presence is read.
#[verifier::external_type_specification]
#[verifier::external_body]
pub struct ExJniError(jni::errors::Error);

/// Calls `JavaVM::attach_current_thread_as_daemon`. Whether the virtual
/// machine lets the thread in is not known beforehand, so nothing is
/// claimed of the result.
#[verifier::external_body]
fn attach_as_daemon(vm: &jni::JavaVM) -> (env: Result<jni::JNIEnv<'_>, jni::errors::Error>) {
    vm.attach_current_thread_as_daemon()
}

/// Calls `JNIEnv::find_class` and says whether a class came back. Nothing
/// is claimed of the answer.
#[verifier::external_body]
fn can_find_class(env: &mut jni::JNIEnv<'_>, name: &str) -> (found: bool) {
    env.find_class(name).is_ok()
}

/// Calls `JavaVM::get_java_vm_pointer` and says whether the pointer is
/// null. Nothing is claimed of the answer.
#[verifier::external_body]
fn native_handle_is_null(vm: &jni::JavaVM) -> (null: bool) {
    vm.get_java_vm_pointer().is_null()
}

/// Runs one round of probes against `vm`. What the virtual machine
/// answers cannot be foretold; `ProbeReport::from_answers` says which
/// report follows from each set of answers. Whatever the answers are,
/// the class probe is only ever reported as passed when a session could
/// be attached.
pub fn probe_host(vm: &jni::JavaVM) -> (report: ProbeReport)
    ensures
        report.classes_ok ==> report.attach_ok,
{
    let attached = attach_as_daemon(vm).is_ok();
    let class_found = if attached {
        match attach_as_daemon(vm) {
            Ok(mut env) => can_find_class(&mut env, "java/lang/System"),
            Err(_) => false,
        }
    } else {
        false
    };
    let handle_is_null = native_handle_is_null(vm);
    ProbeReport::from_answers(attached, class_found, handle_is_null)
}

} // verus!
