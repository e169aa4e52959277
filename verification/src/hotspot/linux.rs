//! The access point as NetworkManager keeps it, driven through `nmcli`.
//!
//! Every step is one run of the tool. The steps are given as argument lists;
//! running them is left to the caller.

use vstd::prelude::*;

use crate::hotspot::pattern::{compile, is_match, regex_accepts, regex_matches};

verus! {

/// What is to be done about the stored connection before it is brought up.
#[derive(Copy, Clone, PartialEq, Eq, Structural, Debug)]
pub enum Repair {
    /// The connection is stored with the wanted name and password.
    Keep,
    /// No such connection is stored: create it.
    Create,
    /// The connection is stored with another name or password: delete it and
    /// create it anew.
    Recreate,
}

/// Which of the two patterns could not be compiled.
#[derive(Copy, Clone, PartialEq, Eq, Structural, Debug)]
pub enum PatternError {
    Ssid,
    Password,
}

/// The pattern that finds the network name in the listing of a connection.
pub open spec fn ssid_pattern(ssid: Seq<char>) -> Seq<char> {
    "802-11-wireless\\.ssid:\\s*"@ + ssid
}

/// The pattern that finds the password in the listing of a connection.
pub open spec fn password_pattern(password: Seq<char>) -> Seq<char> {
    "802-11-wireless-security\\.psk:\\s*"@ + password
}

/// What is to be done about a connection, given whether it is stored and
/// whether its listing shows the wanted name and password.
pub open spec fn repair_for(stored: bool, ssid_shown: bool, password_shown: bool) -> Repair {
    if !stored {
        Repair::Create
    } else if ssid_shown && password_shown {
        Repair::Keep
    } else {
        Repair::Recreate
    }
}

/// Decides what is to be done about a connection, given whether it is stored
/// and whether its listing shows the wanted name and password.
pub fn decide(stored: bool, ssid_shown: bool, password_shown: bool) -> (repair: Repair)
    ensures
        repair == repair_for(stored, ssid_shown, password_shown),
{
    if !stored {
        Repair::Create
    } else if !ssid_shown || !password_shown {
        Repair::Recreate
    } else {
        Repair::Keep
    }
}

/// An access point: the name of the stored connection, the name of the
/// network, and its password.
#[derive(PartialEq, Eq, Debug)]
pub struct HotspotLinux {
    pub name: String,
    pub ssid: String,
    pub password: String,
}

fn word(text: &str) -> (word: String)
    ensures
        word@ == text@,
{
    String::from_str(text)
}

impl HotspotLinux {
    /// The tool that every step runs.
    pub open spec fn tool() -> Seq<char> {
        "nmcli"@
    }

    /// The arguments that list the stored connection.
    pub open spec fn show_arguments(self) -> Seq<Seq<char>> {
        seq!["connection"@, "show"@, self.name@]
    }

    /// The arguments that create the connection on the rig's wireless
    /// interface.
    pub open spec fn create_arguments(self) -> Seq<Seq<char>> {
        seq![
            "device"@,
            "wifi"@,
            "hotspot"@,
            "ifname"@,
            "wlP1p1s0"@,
            "con-name"@,
            self.name@,
            "ssid"@,
            self.ssid@,
            "password"@,
            self.password@,
        ]
    }

    /// The arguments that delete the stored connection.
    pub open spec fn delete_arguments(self) -> Seq<Seq<char>> {
        seq!["connection"@, "delete"@, self.name@]
    }

    /// The arguments that bring the connection up.
    pub open spec fn up_arguments(self) -> Seq<Seq<char>> {
        seq!["connection"@, "up"@, self.name@]
    }

    /// The arguments that bring the connection down.
    pub open spec fn down_arguments(self) -> Seq<Seq<char>> {
        seq!["connection"@, "down"@, self.name@]
    }

    /// The arguments that show the password of the network.
    pub open spec fn password_arguments() -> Seq<Seq<char>> {
        seq!["dev"@, "wifi"@, "show-password"@]
    }

    /// The steps that carry out a repair.
    pub open spec fn repair_steps(self, repair: Repair) -> Seq<Seq<Seq<char>>> {
        match repair {
            Repair::Keep => Seq::empty(),
            Repair::Create => seq![self.create_arguments()],
            Repair::Recreate => seq![self.delete_arguments(), self.create_arguments()],
        }
    }

    /// The steps that start the access point once the repair is known: the
    /// repair, then bringing the connection up, then showing the password.
    pub open spec fn start_steps(self, repair: Repair) -> Seq<Seq<Seq<char>>> {
        self.repair_steps(repair) + seq![self.up_arguments(), Self::password_arguments()]
    }

    /// What is to be done about the connection, given the outcome of listing
    /// it: whether the listing succeeded, and what it printed.
    ///
    /// A connection that is not stored is created. One that is stored is kept
    /// where its listing matches both patterns and made anew where it does
    /// not. The name and the password stand in the patterns as they are, so
    /// either may fail to compile, the name's being tried first.
    pub open spec fn repair_needed(self, stored: bool, listing: Seq<char>) -> Result<
        Repair,
        PatternError,
    > {
        if !stored {
            Ok(Repair::Create)
        } else if !regex_accepts(ssid_pattern(self.ssid@)) {
            Err(PatternError::Ssid)
        } else if !regex_accepts(password_pattern(self.password@)) {
            Err(PatternError::Password)
        } else {
            Ok(
                repair_for(
                    true,
                    regex_matches(ssid_pattern(self.ssid@), listing),
                    regex_matches(password_pattern(self.password@), listing),
                ),
            )
        }
    }

    /// The access point under the name that the rig stores it by.
    pub fn new(ssid: &str, password: &str) -> (hotspot: HotspotLinux)
        ensures
            hotspot.name@ == "Hotspot"@,
            hotspot.ssid@ == ssid@,
            hotspot.password@ == password@,
    {
        HotspotLinux { name: word("Hotspot"), ssid: word(ssid), password: word(password) }
    }

    /// The name of the tool that every step runs.
    pub fn program() -> (program: &'static str)
        ensures
            program@ == Self::tool(),
    {
        "nmcli"
    }

    /// The arguments that list the stored connection.
    pub fn show_connection(&self) -> (arguments: Vec<String>)
        ensures
            arguments.deep_view() == self.show_arguments(),
    {
        let mut arguments: Vec<String> = Vec::new();
        arguments.push(word("connection"));
        arguments.push(word("show"));
        arguments.push(self.name.clone());
        assert(arguments.deep_view() =~= self.show_arguments());
        arguments
    }

    /// Decides what is to be done about the connection, given the outcome of
    /// listing it.
    pub fn ensure_hotspot_exists(&self, stored: bool, listing: &str) -> (repair: Result<
        Repair,
        PatternError,
    >)
        ensures
            repair == self.repair_needed(stored, listing@),
    {
        if !stored {
            return Ok(decide(false, false, false));
        }
        let mut ssid_text = word("802-11-wireless\\.ssid:\\s*");
        ssid_text.append(self.ssid.as_str());
        let mut password_text = word("802-11-wireless-security\\.psk:\\s*");
        password_text.append(self.password.as_str());
        let ssid_regex = match compile(ssid_text.as_str()) {
            Ok(regex) => regex,
            Err(_) => return Err(PatternError::Ssid),
        };
        let password_regex = match compile(password_text.as_str()) {
            Ok(regex) => regex,
            Err(_) => return Err(PatternError::Password),
        };
        let ssid_match = is_match(&ssid_regex, listing);
        let password_match = is_match(&password_regex, listing);
        Ok(decide(true, ssid_match, password_match))
    }

    /// The arguments that create the connection.
    pub fn create_hotspot(&self) -> (arguments: Vec<String>)
        ensures
            arguments.deep_view() == self.create_arguments(),
    {
        let mut arguments: Vec<String> = Vec::new();
        arguments.push(word("device"));
        arguments.push(word("wifi"));
        arguments.push(word("hotspot"));
        arguments.push(word("ifname"));
        arguments.push(word("wlP1p1s0"));
        arguments.push(word("con-name"));
        arguments.push(self.name.clone());
        arguments.push(word("ssid"));
        arguments.push(self.ssid.clone());
        arguments.push(word("password"));
        arguments.push(self.password.clone());
        assert(arguments.deep_view() =~= self.create_arguments());
        arguments
    }

    /// The arguments that show the password of the network.
    pub fn show_password(&self) -> (arguments: Vec<String>)
        ensures
            arguments.deep_view() == Self::password_arguments(),
    {
        let mut arguments: Vec<String> = Vec::new();
        arguments.push(word("dev"));
        arguments.push(word("wifi"));
        arguments.push(word("show-password"));
        assert(arguments.deep_view() =~= Self::password_arguments());
        arguments
    }

    /// The arguments that delete the stored connection.
    pub fn delete_hotspot(&self) -> (arguments: Vec<String>)
        ensures
            arguments.deep_view() == self.delete_arguments(),
    {
        let mut arguments: Vec<String> = Vec::new();
        arguments.push(word("connection"));
        arguments.push(word("delete"));
        arguments.push(self.name.clone());
        assert(arguments.deep_view() =~= self.delete_arguments());
        arguments
    }

    fn connection_up(&self) -> (arguments: Vec<String>)
        ensures
            arguments.deep_view() == self.up_arguments(),
    {
        let mut arguments: Vec<String> = Vec::new();
        arguments.push(word("connection"));
        arguments.push(word("up"));
        arguments.push(self.name.clone());
        assert(arguments.deep_view() =~= self.up_arguments());
        arguments
    }

    fn connection_down(&self) -> (arguments: Vec<String>)
        ensures
            arguments.deep_view() == self.down_arguments(),
    {
        let mut arguments: Vec<String> = Vec::new();
        arguments.push(word("connection"));
        arguments.push(word("down"));
        arguments.push(self.name.clone());
        assert(arguments.deep_view() =~= self.down_arguments());
        arguments
    }

    /// The steps that start the access point once the repair is known, each
    /// as the arguments of one run of the tool.
    pub fn start(&self, repair: Repair) -> (steps: Vec<Vec<String>>)
        ensures
            steps.deep_view() == self.start_steps(repair),
    {
        let mut steps: Vec<Vec<String>> = Vec::new();
        match repair {
            Repair::Keep => {},
            Repair::Create => {
                steps.push(self.create_hotspot());
            },
            Repair::Recreate => {
                steps.push(self.delete_hotspot());
                steps.push(self.create_hotspot());
            },
        }
        steps.push(self.connection_up());
        steps.push(self.show_password());
        assert(steps.deep_view() =~= self.start_steps(repair));
        steps
    }

    /// The one step that stops the access point.
    pub fn stop(&self) -> (steps: Vec<Vec<String>>)
        ensures
            steps.deep_view() == seq![self.down_arguments()],
    {
        let mut steps: Vec<Vec<String>> = Vec::new();
        steps.push(self.connection_down());
        assert(steps.deep_view() =~= seq![self.down_arguments()]);
        steps
    }
}

} // verus!
