//! What the service is told by its environment.
use vstd::prelude::*;
use vstd::string::*;

use crate::text;

verus! {

/// The values of the environment variables that the service reads, where they are set.
#[derive(Debug)]
pub struct Variables {
    /// `CAM_INDEX`
    pub index: Option<String>,
    /// `CAM_WIDTH`
    pub width: Option<String>,
    /// `CAM_HEIGHT`
    pub height: Option<String>,
    /// `CAM_FPS`
    pub fps: Option<String>,
    /// `BIND_ADDR`
    pub bind_addr: Option<String>,
}

/// The configuration of the service.
#[derive(Debug)]
pub struct Config {
    /// The index of the camera that is selected at the start.
    pub index: u32,
    pub width: u32,
    pub height: u32,
    pub fps: u32,
    pub bind_addr: String,
}

/// The number that a variable stands for. Spaces after it do not count: a command line such
/// as `set CAM_INDEX=1 && ..` leaves one there. A variable that is not set, or holds no
/// number, stands for its default.
pub open spec fn number_of(value: Option<String>, default: u32) -> u32 {
    match value {
        Some(s) => match text::u32_of(text::without_trailing_spaces(s@)) {
            Some(n) => n,
            None => default,
        },
        None => default,
    }
}

/// The number that a variable stands for.
pub fn number_or(value: &Option<String>, default: u32) -> (r: u32)
    ensures
        r == number_of(*value, default),
{
    match value {
        Some(s) => match text::parse_u32(text::trim_trailing_spaces(s.as_str())) {
            Some(n) => n,
            None => default,
        },
        None => default,
    }
}

impl Config {
    /// The configuration that the variables give, with the default of each where it does not
    /// say otherwise.
    pub fn from_variables(vars: Variables) -> (r: Self)
        ensures
            r.index == number_of(vars.index, 0),
            r.width == number_of(vars.width, 640),
            r.height == number_of(vars.height, 480),
            r.fps == number_of(vars.fps, 30),
            r.bind_addr@ == match vars.bind_addr {
                Some(addr) => addr@,
                None => "0.0.0.0:3000"@,
            },
    {
        Config {
            index: number_or(&vars.index, 0),
            width: number_or(&vars.width, 640),
            height: number_or(&vars.height, 480),
            fps: number_or(&vars.fps, 30),
            bind_addr: match vars.bind_addr {
                Some(addr) => addr,
                None => "0.0.0.0:3000".to_owned(),
            },
        }
    }

    /// The TCP port in the address to bind: what follows its last colon.
    pub fn bind_port(&self) -> (r: String)
        ensures
            text::is_after_last(r@, self.bind_addr@, ':'),
    {
        text::after_last(self.bind_addr.as_str(), ':')
    }
}

/// A variable set to a number in decimal, with any spaces after it, means that number,
/// whatever its default.
pub proof fn number_is_taken(value: String, n: u32, spaces: Seq<char>, default: u32)
    requires
        text::all_spaces(spaces),
        value@ == text::decimal(n as nat) + spaces,
    ensures
        number_of(Some(value), default) == n,
{
    text::decimal_reads_back(n, spaces);
}

/// What a number in a variable means: what is read from it once the spaces after it are gone, and
/// its default if nothing is, or if it is not set.
pub proof fn variable_means_its_number(
    value: String,
    default: u32,
    bare: &str,
    read: Option<u32>,
    set: u32,
    unset: u32,
)
    requires
        bare@.len() == 0 || bare@.last() != ' ',
        bare@.is_prefix_of(value@),
        text::all_spaces(value@.skip(bare@.len() as int)),
        call_ensures(text::parse_u32, (bare,), read),
        call_ensures(number_or, (&Some(value), default), set),
        call_ensures(number_or, (&None::<String>, default), unset),
    ensures
        read matches Some(n) ==> set == n,
        read is None ==> set == default,
        unset == default,
{
    assert(value@ =~= bare@ + value@.skip(bare@.len() as int));
    text::trailing_spaces_are_dropped(bare@, value@.skip(bare@.len() as int));
}

/// Each setting comes from its own variable, and has its own default: camera 0, 640 by 480 pixels,
/// 30 frames a second, and port 3000 on all addresses.
pub proof fn settings_come_from_their_variables(
    vars: Variables,
    config: Config,
    index: u32,
    width: u32,
    height: u32,
    fps: u32,
)
    requires
        call_ensures(Config::from_variables, (vars,), config),
        call_ensures(number_or, (&vars.index, 0u32), index),
        call_ensures(number_or, (&vars.width, 640u32), width),
        call_ensures(number_or, (&vars.height, 480u32), height),
        call_ensures(number_or, (&vars.fps, 30u32), fps),
    ensures
        config.index == index,
        config.width == width,
        config.height == height,
        config.fps == fps,
        vars.bind_addr matches Some(addr) ==> config.bind_addr@ == addr@,
        vars.bind_addr is None ==> config.bind_addr@ == "0.0.0.0:3000"@,
{
}

/// The port of an address is what stands after its last colon.
pub proof fn port_follows_the_last_colon(
    config: Config,
    host: Seq<char>,
    port: Seq<char>,
    r: String,
)
    requires
        config.bind_addr@ == host + seq![':'] + port,
        !port.contains(':'),
        call_ensures(Config::bind_port, (&config,), r),
    ensures
        r@ == port,
{
    let addr = config.bind_addr@;
    assert(addr.skip(addr.len() - port.len()) =~= port);
    assert(addr[addr.len() - port.len() - 1] == ':');
    text::after_last_is_unique(r@, port, addr, ':');
}

} // verus!
