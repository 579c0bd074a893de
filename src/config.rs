use vstd::prelude::*;

verus! {

/// The port used when none is given or the given one cannot be read.
pub const DEFAULT_PORT: u16 = 9999;

/// Whether every character is an ASCII decimal digit.
pub open spec fn all_digits(s: Seq<char>) -> bool {
    forall|i: int| 0 <= i < s.len() ==> '0' <= #[trigger] s[i] <= '9'
}

/// The value of a run of decimal digits.
pub open spec fn digits_value(s: Seq<char>) -> nat
    decreases s.len(),
{
    if s.len() == 0 {
        0
    } else {
        digits_value(s.drop_last()) * 10 + ((s.last() as nat) - ('0' as nat)) as nat
    }
}

/// The digits of a port text: the text without one leading `+`.
pub open spec fn unsigned_digits(s: Seq<char>) -> Seq<char> {
    if s.len() > 0 && s[0] == '+' {
        s.drop_first()
    } else {
        s
    }
}

/// The port that a text denotes as std reads a `u16`: an optional `+`, then
/// one or more decimal digits, with a value below 65536.
pub open spec fn port_value(s: Seq<char>) -> Option<u16> {
    let d = unsigned_digits(s);
    if d.len() > 0 && all_digits(d) && digits_value(d) <= u16::MAX {
        Some(digits_value(d) as u16)
    } else {
        None
    }
}

/// Relies on `<u16 as FromStr>::from_str`: an optional `+` followed by one or
/// more ASCII digits whose value fits, and nothing else, is accepted.
#[verifier::external_body]
fn parse_u16(s: &str) -> (r: Option<u16>)
    ensures
        r == port_value(s@),
{
    s.parse::<u16>().ok()
}

/// Where the chosen port came from.
#[derive(Debug, Clone, Copy, PartialEq, Eq, Structural)]
pub enum PortSource {
    /// The argument was read as a port.
    Given,
    /// The argument was present but not a port number; the default is used.
    Unparsable,
    /// No argument was given; the default is used.
    Missing,
}

/// The chosen port and where it came from.
#[derive(Debug, Clone, Copy, PartialEq, Eq, Structural)]
pub struct PortChoice {
    pub port: u16,
    pub source: PortSource,
}

/// The port choice for an optional port argument.
pub open spec fn port_choice_spec(arg: Option<Seq<char>>) -> PortChoice {
    match arg {
        None => PortChoice { port: DEFAULT_PORT, source: PortSource::Missing },
        Some(s) => match port_value(s) {
            Some(p) => PortChoice { port: p, source: PortSource::Given },
            None => PortChoice { port: DEFAULT_PORT, source: PortSource::Unparsable },
        },
    }
}

/// The view of an optional argument.
pub open spec fn arg_view(arg: Option<&str>) -> Option<Seq<char>> {
    match arg {
        Some(s) => Some(s@),
        None => None,
    }
}

/// Chooses the port from the optional port argument, falling back to the
/// default when it is absent or not a port number.
pub fn port_from_arg(arg: Option<&str>) -> (r: PortChoice)
    ensures
        r == port_choice_spec(arg_view(arg)),
{
    match arg {
        None => PortChoice { port: DEFAULT_PORT, source: PortSource::Missing },
        Some(s) => match parse_u16(s) {
            Some(p) => PortChoice { port: p, source: PortSource::Given },
            None => PortChoice { port: DEFAULT_PORT, source: PortSource::Unparsable },
        },
    }
}

/// A required argument that is absent.
#[derive(Debug, Clone, Copy, PartialEq, Eq, Structural)]
pub enum StartupFault {
    /// The first argument, the directory to share, is missing.
    MissingBaseDir,
    /// The third argument, the plugin directory, is missing.
    MissingPluginDir,
}

/// What the server is started with; fixed for the process's lifetime.
#[derive(Debug, Clone)]
pub struct ServerConfig {
    pub base_dir: String,
    pub port: PortChoice,
    pub plugin_dir: String,
}

/// Reads the configuration from the process arguments, the program name
/// first: the shared directory, the port and the plugin directory.
pub fn config_from_args(args: &Vec<String>) -> (r: Result<ServerConfig, StartupFault>)
    ensures
        args.len() < 2 <==> r == Err::<ServerConfig, StartupFault>(StartupFault::MissingBaseDir),
        args.len() == 2 || args.len() == 3 <==> r == Err::<ServerConfig, StartupFault>(
            StartupFault::MissingPluginDir,
        ),
        r is Ok <==> args.len() >= 4,
        r is Ok ==> r->Ok_0.base_dir@ == args@[1]@ && r->Ok_0.plugin_dir@ == args@[3]@
            && r->Ok_0.port == port_choice_spec(Some(args@[2]@)),
{
    if args.len() < 2 {
        return Err(StartupFault::MissingBaseDir);
    }
    if args.len() < 4 {
        return Err(StartupFault::MissingPluginDir);
    }
    let base_dir = String::from_str(args[1].as_str());
    let port = port_from_arg(Some(args[2].as_str()));
    let plugin_dir = String::from_str(args[3].as_str());
    Ok(ServerConfig { base_dir, port, plugin_dir })
}

/// A file under the plugin directory's certificate folder.
pub open spec fn cert_file_spec(plugin_dir: Seq<char>, file: Seq<char>) -> Seq<char> {
    plugin_dir + "/certs/"@ + file
}

/// The path of a file in the plugin directory's certificate folder.
pub fn cert_file(plugin_dir: &str, file: &str) -> (r: String)
    ensures
        r@ == cert_file_spec(plugin_dir@, file@),
{
    let mut r = String::from_str(plugin_dir);
    r.append("/certs/");
    r.append(file);
    r
}

/// The folder of the plugin's bundled front-end files.
pub fn web_dir(plugin_dir: &str) -> (r: String)
    ensures
        r@ == plugin_dir@ + "/web"@,
{
    let mut r = String::from_str(plugin_dir);
    r.append("/web");
    r
}

} // verus!
