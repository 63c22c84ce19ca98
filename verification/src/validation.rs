use vstd::prelude::*;

verus! {

/// Raw bits of `VkDebugUtilsMessageSeverityFlagsEXT`.
pub const SEVERITY_VERBOSE: u32 = 0x1;
pub const SEVERITY_INFO: u32 = 0x10;
pub const SEVERITY_WARNING: u32 = 0x100;
pub const SEVERITY_ERROR: u32 = 0x1000;

/// Raw bits of `VkDebugUtilsMessageTypeFlagsEXT`.
pub const MESSAGE_TYPE_GENERAL: u32 = 0x1;
pub const MESSAGE_TYPE_VALIDATION: u32 = 0x2;
pub const MESSAGE_TYPE_PERFORMANCE: u32 = 0x4;

/// How a validation message is reported: its severity tag, its type tag,
/// and whether it is a failure (a warning or an error).
pub struct MessageReport {
    pub severity: &'static str,
    pub message_type: &'static str,
    pub failure: bool,
}

/// Tags a validation message by its severity and type flags, each compared
/// as a whole.
pub fn classify_message(severity: u32, message_type: u32) -> (r: MessageReport)
    ensures
        severity == SEVERITY_VERBOSE ==> r.severity@ == "[Verbose]"@,
        severity == SEVERITY_INFO ==> r.severity@ == "[Info]"@,
        severity == SEVERITY_WARNING ==> r.severity@ == "[Warning]"@,
        severity == SEVERITY_ERROR ==> r.severity@ == "[Error]"@,
        severity != SEVERITY_VERBOSE && severity != SEVERITY_INFO && severity != SEVERITY_WARNING
            && severity != SEVERITY_ERROR ==> r.severity@ == "[Unknown]"@,
        message_type == MESSAGE_TYPE_GENERAL ==> r.message_type@ == "[General]"@,
        message_type == MESSAGE_TYPE_PERFORMANCE ==> r.message_type@ == "[Performance]"@,
        message_type == MESSAGE_TYPE_VALIDATION ==> r.message_type@ == "[Validation]"@,
        message_type != MESSAGE_TYPE_GENERAL && message_type != MESSAGE_TYPE_PERFORMANCE
            && message_type != MESSAGE_TYPE_VALIDATION ==> r.message_type@ == "[Unknown]"@,
        r.failure == (severity == SEVERITY_WARNING || severity == SEVERITY_ERROR),
{
    let mut failure = false;
    let severity_tag = if severity == SEVERITY_VERBOSE {
        "[Verbose]"
    } else if severity == SEVERITY_INFO {
        "[Info]"
    } else if severity == SEVERITY_WARNING {
        failure = true;
        "[Warning]"
    } else if severity == SEVERITY_ERROR {
        failure = true;
        "[Error]"
    } else {
        "[Unknown]"
    };
    let type_tag = if message_type == MESSAGE_TYPE_GENERAL {
        "[General]"
    } else if message_type == MESSAGE_TYPE_PERFORMANCE {
        "[Performance]"
    } else if message_type == MESSAGE_TYPE_VALIDATION {
        "[Validation]"
    } else {
        "[Unknown]"
    };
    MessageReport { severity: severity_tag, message_type: type_tag, failure }
}

} // verus!
