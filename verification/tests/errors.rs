use binary_options_tools_js::error::BinaryErrorJs;
use binary_options_tools_js::sink::LogError;

fn s(text: &str) -> String {
    text.to_string()
}

#[test]
fn error_messages() {
    assert_eq!(
        BinaryErrorJs::BinaryOptionsError(s("timeout")).to_string(),
        "BinaryOptionsError, timeout"
    );
    assert_eq!(
        BinaryErrorJs::PocketOptionError(s("bad ssid")).to_string(),
        "PocketOptionError, bad ssid"
    );
    assert_eq!(BinaryErrorJs::Uninitialized(s("client")).to_string(), "Uninitialized, client");
    assert_eq!(
        BinaryErrorJs::DeserializingError(s("EOF while parsing")).to_string(),
        "Error descerializing data, EOF while parsing"
    );
    assert_eq!(
        BinaryErrorJs::UuidParsingError(s("invalid length")).to_string(),
        "UUID parsing error, invalid length"
    );
    assert_eq!(
        BinaryErrorJs::TradeNotFound(s("67e55044-10b1-426f-9247-bb680e5fe0c8")).to_string(),
        "Trade not found, haven't found trade for id '67e55044-10b1-426f-9247-bb680e5fe0c8'"
    );
    assert_eq!(BinaryErrorJs::NotAllowed(s("ignored")).to_string(), "Operation not allowed");
    assert_eq!(
        BinaryErrorJs::InvalidRegexError(s("unclosed group")).to_string(),
        "Invalid Regex pattern, unclosed group"
    );
}

#[test]
fn log_error_messages() {
    assert_eq!(
        LogError::AlreadyInstalled.to_string(),
        "Builder has already been built, cannot be called again"
    );
    assert_eq!(LogError::Io(s("Permission denied")).to_string(), "Permission denied");
}
