use vstd::prelude::*;

verus! {

/// The options that decide what goes into the install image.
///
/// Paths are held as the text of the path and the server address as its
/// printed form.
#[derive(Debug)]
pub struct Args {
    /// The system-wide timezone
    pub timezone: String,
    /// The system-wide locale
    pub locale: String,
    /// The GNOME locale
    pub gnome_locale: Option<String>,
    /// The contestant account name
    pub contestant_account: String,
    /// The organizer account name
    pub orga_account: String,
    /// Password for root and orga account
    pub password: String,
    /// GitHub usernames to fetch SSH keys from
    pub ssh_github: Vec<String>,
    /// Additional SSH public keys
    pub ssh: Vec<String>,
    /// Install VirtualBox
    pub virtualbox: bool,
    pub disable_wayland: bool,
    pub additional_user_files: Vec<String>,
    pub additional_server_names: Vec<String>,
    pub nowait: bool,
    /// Pin packages to a specific date, format YYYY/MM/DD
    pub pin_packages: Option<String>,
    /// The browser's homepage
    pub homepage: Option<String>,
    /// Install PyCharm
    pub pycharm: bool,
    /// Install Code::Blocks
    pub codeblocks: bool,
    /// The server IP address
    pub server_ip: String,
    pub pixie: bool,
    pub node_exporter: bool,
    pub no_lockdown: bool,
    pub orga_net: String,
    pub backgrounds: bool,
    pub default_background: Option<String>,
    /// GNOME keyboard layout
    pub keyboard_layout: Vec<String>,
    pub ca_certificate: Vec<String>,
    pub firefox_policies: Option<String>,
}

/// The options with every string taken by its characters.
pub struct ArgsView {
    pub timezone: Seq<char>,
    pub locale: Seq<char>,
    pub gnome_locale: Option<Seq<char>>,
    pub contestant_account: Seq<char>,
    pub orga_account: Seq<char>,
    pub password: Seq<char>,
    pub ssh_github: Seq<Seq<char>>,
    pub ssh: Seq<Seq<char>>,
    pub virtualbox: bool,
    pub disable_wayland: bool,
    pub additional_user_files: Seq<Seq<char>>,
    pub additional_server_names: Seq<Seq<char>>,
    pub nowait: bool,
    pub pin_packages: Option<Seq<char>>,
    pub homepage: Option<Seq<char>>,
    pub pycharm: bool,
    pub codeblocks: bool,
    pub server_ip: Seq<char>,
    pub pixie: bool,
    pub node_exporter: bool,
    pub no_lockdown: bool,
    pub orga_net: Seq<char>,
    pub backgrounds: bool,
    pub default_background: Option<Seq<char>>,
    pub keyboard_layout: Seq<Seq<char>>,
    pub ca_certificate: Seq<Seq<char>>,
    pub firefox_policies: Option<Seq<char>>,
}

/// The characters of an optional string.
pub open spec fn opt_view(o: Option<String>) -> Option<Seq<char>> {
    match o {
        Some(s) => Some(s@),
        None => None,
    }
}

/// The characters of each string of a list.
pub open spec fn strings_view(v: Seq<String>) -> Seq<Seq<char>> {
    v.map_values(|s: String| s@)
}

impl View for Args {
    type V = ArgsView;

    open spec fn view(&self) -> ArgsView {
        ArgsView {
            timezone: self.timezone@,
            locale: self.locale@,
            gnome_locale: opt_view(self.gnome_locale),
            contestant_account: self.contestant_account@,
            orga_account: self.orga_account@,
            password: self.password@,
            ssh_github: strings_view(self.ssh_github@),
            ssh: strings_view(self.ssh@),
            virtualbox: self.virtualbox,
            disable_wayland: self.disable_wayland,
            additional_user_files: strings_view(self.additional_user_files@),
            additional_server_names: strings_view(self.additional_server_names@),
            nowait: self.nowait,
            pin_packages: opt_view(self.pin_packages),
            homepage: opt_view(self.homepage),
            pycharm: self.pycharm,
            codeblocks: self.codeblocks,
            server_ip: self.server_ip@,
            pixie: self.pixie,
            node_exporter: self.node_exporter,
            no_lockdown: self.no_lockdown,
            orga_net: self.orga_net@,
            backgrounds: self.backgrounds,
            default_background: opt_view(self.default_background),
            keyboard_layout: strings_view(self.keyboard_layout@),
            ca_certificate: strings_view(self.ca_certificate@),
            firefox_policies: opt_view(self.firefox_policies),
        }
    }
}

} // verus!
