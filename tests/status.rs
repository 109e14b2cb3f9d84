use wasmedge_tensorflow_interface::{
    check_status, WasmedgeTfErrno, WASMEDGE_TF_ERRNO_BUSY, WASMEDGE_TF_ERRNO_INVALID_ARGUMENT,
    WASMEDGE_TF_ERRNO_INVALID_ENCODING, WASMEDGE_TF_ERRNO_MISSING_MEMORY,
    WASMEDGE_TF_ERRNO_RUNTIME_ERROR, WASMEDGE_TF_ERRNO_SUCCESS,
};

#[test]
fn raw_gives_back_the_code() {
    assert_eq!(WasmedgeTfErrno::from_raw(3).raw(), 3);
    assert_eq!(WasmedgeTfErrno::from_raw(WASMEDGE_TF_ERRNO_BUSY).raw(), 4);
}

#[test]
fn codes_have_their_names() {
    let names = [
        (WASMEDGE_TF_ERRNO_SUCCESS, "SUCCESS"),
        (WASMEDGE_TF_ERRNO_INVALID_ARGUMENT, "INVALID_ARGUMENT"),
        (WASMEDGE_TF_ERRNO_INVALID_ENCODING, "INVALID_ENCODING"),
        (WASMEDGE_TF_ERRNO_MISSING_MEMORY, "MISSING_MEMORY"),
        (WASMEDGE_TF_ERRNO_BUSY, "BUSY"),
        (WASMEDGE_TF_ERRNO_RUNTIME_ERROR, "RUNTIME_ERROR"),
    ];
    for (code, name) in names {
        assert_eq!(WasmedgeTfErrno::from_raw(code).name(), name);
    }
}

#[test]
fn codes_carry_no_message() {
    for code in 0..=5u32 {
        assert_eq!(WasmedgeTfErrno::from_raw(code).message(), "");
    }
}

#[test]
fn zero_status_is_success() {
    assert_eq!(check_status(0), Ok(()));
}

#[test]
fn nonzero_status_is_its_error() {
    assert_eq!(check_status(5), Err(WasmedgeTfErrno::from_raw(5)));
    assert_eq!(check_status(5).unwrap_err().name(), "RUNTIME_ERROR");
    assert_eq!(check_status(1).unwrap_err().raw(), WASMEDGE_TF_ERRNO_INVALID_ARGUMENT);
}

#[test]
fn negative_status_reads_as_unsigned() {
    assert_eq!(check_status(-1).unwrap_err().raw(), 0xFFFF_FFFF);
    assert_eq!(check_status(i32::MIN).unwrap_err().raw(), 0x8000_0000);
}

#[test]
fn errors_describe_themselves() {
    assert_eq!(WasmedgeTfErrno::from_raw(WASMEDGE_TF_ERRNO_BUSY).describe(), "BUSY (error 4)");
    assert_eq!(WasmedgeTfErrno::from_raw(0).describe(), "SUCCESS (error 0)");
    assert_eq!(
        check_status(2).unwrap_err().describe(),
        "INVALID_ENCODING (error 2)"
    );
}
