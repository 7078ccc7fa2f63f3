//! Per-user service registration: names and file contents of the unit or
//! agent that starts the host at login. Writing and loading the files is the
//! host's job.
use vstd::prelude::*;
use vstd::string::StringExecFns;

verus! {

/// A systemd user unit.
pub struct SystemdServiceInstaller {
    pub service_name: String,
}

impl SystemdServiceInstaller {
    pub fn new(service_name: &str) -> (r: Self)
        ensures
            r.service_name@ == service_name@,
    {
        SystemdServiceInstaller { service_name: String::from_str(service_name) }
    }

    /// `<name>.service`
    pub fn unit_file_name(&self) -> (r: String)
        ensures
            r@ == self.service_name@ + ".service"@,
    {
        String::from_str(self.service_name.as_str()).concat(".service")
    }

    /// The unit that starts `exe_path` at login and restarts it on failure.
    pub fn unit_file_contents(&self, exe_path: &str) -> (r: String)
        ensures
            r@ == "[Unit]\nDescription=Rust app: "@ + self.service_name@ + "\n\n[Service]\nExecStart="@
                + exe_path@ + "\nRestart=on-failure\n\n[Install]\nWantedBy=default.target\n"@,
    {
        String::from_str("[Unit]\nDescription=Rust app: ").concat(self.service_name.as_str()).concat(
            "\n\n[Service]\nExecStart=",
        ).concat(exe_path).concat("\nRestart=on-failure\n\n[Install]\nWantedBy=default.target\n")
    }
}

/// A launchd user agent.
pub struct LaunchdServiceInstaller {
    pub label: String,
}

impl LaunchdServiceInstaller {
    pub fn new(label: &str) -> (r: Self)
        ensures
            r.label@ == label@,
    {
        LaunchdServiceInstaller { label: String::from_str(label) }
    }

    /// `<label>.plist`
    pub fn plist_file_name(&self) -> (r: String)
        ensures
            r@ == self.label@ + ".plist"@,
    {
        String::from_str(self.label.as_str()).concat(".plist")
    }

    /// The agent property list that runs `exe_path` at load.
    pub fn plist_contents(&self, exe_path: &str) -> (r: String)
        ensures
            r@ == "<?xml version=\"1.0\" encoding=\"UTF-8\"?>\n<!DOCTYPE plist PUBLIC \"-//Apple//DTD PLIST 1.0//EN\" \"http://www.apple.com/DTDs/PropertyList-1.0.dtd\">\n<plist version=\"1.0\">\n<dict>\n    <key>Label</key><string>"@
                + self.label@ + "</string>\n    <key>ProgramArguments</key>\n    <array><string>"@
                + exe_path@ + "</string></array>\n    <key>RunAtLoad</key><true/>\n</dict>\n</plist>"@,
    {
        String::from_str(
            "<?xml version=\"1.0\" encoding=\"UTF-8\"?>\n<!DOCTYPE plist PUBLIC \"-//Apple//DTD PLIST 1.0//EN\" \"http://www.apple.com/DTDs/PropertyList-1.0.dtd\">\n<plist version=\"1.0\">\n<dict>\n    <key>Label</key><string>",
        ).concat(self.label.as_str()).concat(
            "</string>\n    <key>ProgramArguments</key>\n    <array><string>",
        ).concat(exe_path).concat(
            "</string></array>\n    <key>RunAtLoad</key><true/>\n</dict>\n</plist>",
        )
    }
}

/// A Windows service running as LocalSystem.
pub struct WindowsServiceInstaller {
    pub name: String,
}

impl WindowsServiceInstaller {
    pub fn new(name: &str) -> (r: Self)
        ensures
            r.name@ == name@,
    {
        WindowsServiceInstaller { name: String::from_str(name) }
    }
}

} // verus!
