//! What starting at login writes: the macOS launch agent and the Windows
//! `Run` registry entry.

use vstd::prelude::*;
use vstd::string::*;

verus! {

/// Everything of the launch agent before the program path.
pub open spec fn plist_head() -> Seq<char> {
    "<?xml version=\"1.0\" encoding=\"UTF-8\"?>\n<!DOCTYPE plist PUBLIC \"-//Apple//DTD PLIST 1.0//EN\" \"http://www.apple.com/DTDs/PropertyList-1.0.dtd\">\n<plist version=\"1.0\">\n<dict>\n    <key>Label</key>\n    <string>com.steelmouse.app</string>\n    <key>ProgramArguments</key>\n    <array>\n        <string>"@
}

/// Everything of the launch agent after the program path.
pub open spec fn plist_tail() -> Seq<char> {
    "</string>\n    </array>\n    <key>RunAtLoad</key>\n    <true/>\n</dict>\n</plist>"@
}

/// The launch agent (`~/Library/LaunchAgents/com.steelmouse.plist`) that
/// starts the program at `exe` at login.
pub fn launch_agent_plist(exe: &str) -> (s: String)
    ensures
        s@ == plist_head() + exe@ + plist_tail(),
{
    let mut s = String::new();
    s.append("<?xml version=\"1.0\" encoding=\"UTF-8\"?>\n<!DOCTYPE plist PUBLIC \"-//Apple//DTD PLIST 1.0//EN\" \"http://www.apple.com/DTDs/PropertyList-1.0.dtd\">\n<plist version=\"1.0\">\n<dict>\n    <key>Label</key>\n    <string>com.steelmouse.app</string>\n    <key>ProgramArguments</key>\n    <array>\n        <string>");
    s.append(exe);
    s.append("</string>\n    </array>\n    <key>RunAtLoad</key>\n    <true/>\n</dict>\n</plist>");
    s
}

/// The registry key under which Windows starts programs at login.
pub open spec fn run_key() -> Seq<char> {
    "HKCU\\Software\\Microsoft\\Windows\\CurrentVersion\\Run"@
}

fn owned(s: &str) -> (r: String)
    ensures
        r@ == s@,
{
    String::from_str(s)
}

/// The arguments of `reg` that add (`enable`) or delete the "SteelMouse"
/// start-at-login entry for the program at `exe`; the value added is the
/// quoted path.
pub fn registry_args(enable: bool, exe: &str) -> (args: Vec<String>)
    ensures
        enable ==> args@.len() == 9 && args@[0]@ == "add"@ && args@[1]@ == run_key()
            && args@[2]@ == "/v"@ && args@[3]@ == "SteelMouse"@ && args@[4]@ == "/t"@
            && args@[5]@ == "REG_SZ"@ && args@[6]@ == "/d"@
            && args@[7]@ == "\""@ + exe@ + "\""@ && args@[8]@ == "/f"@,
        !enable ==> args@.len() == 5 && args@[0]@ == "delete"@ && args@[1]@ == run_key()
            && args@[2]@ == "/v"@ && args@[3]@ == "SteelMouse"@ && args@[4]@ == "/f"@,
{
    let mut args: Vec<String> = Vec::new();
    if enable {
        args.push(owned("add"));
    } else {
        args.push(owned("delete"));
    }
    args.push(owned("HKCU\\Software\\Microsoft\\Windows\\CurrentVersion\\Run"));
    args.push(owned("/v"));
    args.push(owned("SteelMouse"));
    if enable {
        args.push(owned("/t"));
        args.push(owned("REG_SZ"));
        args.push(owned("/d"));
        let mut quoted = String::new();
        quoted.append("\"");
        quoted.append(exe);
        quoted.append("\"");
        args.push(quoted);
    }
    args.push(owned("/f"));
    args
}

} // verus!
