use fuzz_corpus::compiler::CompilerKind;
use fuzz_corpus::compiler::classify_wrapper_name;

#[test]
fn c_frontend_names() {
    assert_eq!(classify_wrapper_name("cc"), Some(CompilerKind::C));
    assert_eq!(classify_wrapper_name("gcc"), Some(CompilerKind::C));
    assert_eq!(classify_wrapper_name("libafl_cc"), Some(CompilerKind::C));
    assert_eq!(classify_wrapper_name("CC"), Some(CompilerKind::C));
    assert_eq!(classify_wrapper_name("gCc"), Some(CompilerKind::C));
}

#[test]
fn cpp_frontend_names() {
    assert_eq!(classify_wrapper_name("g++"), Some(CompilerKind::Cpp));
    assert_eq!(classify_wrapper_name("clang++"), Some(CompilerKind::Cpp));
    assert_eq!(classify_wrapper_name("libafl_cpp"), Some(CompilerKind::Cpp));
    assert_eq!(classify_wrapper_name("libafl_cxx"), Some(CompilerKind::Cpp));
    assert_eq!(classify_wrapper_name("CXX"), Some(CompilerKind::Cpp));
    assert_eq!(classify_wrapper_name("cPP"), Some(CompilerKind::Cpp));
}

#[test]
fn unrecognized_names_identify_no_frontend() {
    assert_eq!(classify_wrapper_name(""), None);
    assert_eq!(classify_wrapper_name("c"), None);
    assert_eq!(classify_wrapper_name("clang"), None);
    assert_eq!(classify_wrapper_name("rustc"), None);
    assert_eq!(classify_wrapper_name("x+"), None);
}
