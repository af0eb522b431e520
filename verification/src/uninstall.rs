//! Uninstall guidance: the exact lines telling the user how to remove
//! the two installed binaries and, when known, where the password file
//! lives. Locating the binaries on the search path is the caller's; this
//! composes the message from the paths found.

use vstd::prelude::*;

verus! {

/// One removal command line.
pub open spec fn remove_command_text(path: Seq<char>) -> Seq<char> {
    "    sudo rm "@ + path
}

/// The indented path of the password file.
pub open spec fn file_location_text(path: Seq<char>) -> Seq<char> {
    "    "@ + path
}

/// The full uninstall guidance: a heading, a blank line, one removal
/// command per binary, and — when the password file's location is known —
/// a second block naming it.
pub fn uninstall_instructions(
    rooster_path: &str,
    clipboard_helper_path: &str,
    password_file: Option<&String>,
) -> (r: Vec<String>)
    ensures
        password_file is None ==> r@.len() == 4,
        password_file is Some ==> r@.len() == 8,
        r@[0]@ == "To uninstall Rooster from your system, run the following commands:"@,
        r@[1]@ == Seq::<char>::empty(),
        r@[2]@ == remove_command_text(rooster_path@),
        r@[3]@ == remove_command_text(clipboard_helper_path@),
        password_file is Some ==> {
            &&& r@[4]@ == Seq::<char>::empty()
            &&& r@[5]@ == "If you want to remove your password file as well, it is located at:"@
            &&& r@[6]@ == Seq::<char>::empty()
            &&& r@[7]@ == file_location_text(password_file->0@)
        },
{
    let mut r: Vec<String> = Vec::new();
    r.push(String::from_str("To uninstall Rooster from your system, run the following commands:"));
    r.push(String::new());
    let mut rm_rooster = String::from_str("    sudo rm ");
    rm_rooster.append(rooster_path);
    r.push(rm_rooster);
    let mut rm_helper = String::from_str("    sudo rm ");
    rm_helper.append(clipboard_helper_path);
    r.push(rm_helper);
    match password_file {
        Some(file) => {
            r.push(String::new());
            r.push(
                String::from_str(
                    "If you want to remove your password file as well, it is located at:",
                ),
            );
            r.push(String::new());
            let mut loc = String::from_str("    ");
            loc.append(file.as_str());
            r.push(loc);
        },
        None => {},
    }
    r
}

} // verus!
