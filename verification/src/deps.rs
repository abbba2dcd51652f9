//! The programs that the tool needs, and how each platform installs them.

use crate::text::{
    concat2, contains, contains_str, join, join_strs, same, string_of, string_views, to_chars,
    trim, trim_range, views,
};
use vstd::prelude::*;

verus! {

/// A family of Linux distributions, by its package manager.
#[derive(Debug, Clone, Copy, PartialEq, Eq, Structural)]
pub enum LinuxDistro {
    /// apt: Debian, Ubuntu, Mint.
    Debian,
    /// dnf: Fedora, RHEL, CentOS.
    RedHat,
    /// pacman: Arch, Manjaro.
    Arch,
}

/// A platform that the tool can install its dependencies on.
#[derive(Debug, Clone, Copy, PartialEq, Eq, Structural)]
pub enum Platform {
    MacOS,
    Linux(LinuxDistro),
}

/// The operating system that the tool was built for.
#[derive(Debug, Clone, Copy, PartialEq, Eq, Structural)]
pub enum HostOs {
    MacOS,
    Linux,
    Other,
}

/// Why no platform could be settled on.
#[derive(Debug, Clone, Copy, PartialEq, Eq, Structural)]
pub enum PlatformError {
    /// macOS without Homebrew.
    NoHomebrew,
    /// Neither macOS nor Linux.
    Unsupported,
}

/// `s` in lower case, as `str::to_lowercase` makes it.
pub uninterp spec fn lowercase(s: Seq<char>) -> Seq<char>;

/// `str::to_lowercase`: the lower-case form of the text, a fixed function of
/// its characters.
#[verifier::external_body]
fn to_lowercase(s: &str) -> (r: String)
    ensures
        r@ == lowercase(s@),
{
    s.to_lowercase()
}

/// The distribution family that an os-release text in lower case names; the
/// Debian family where it names none that is known.
pub open spec fn distro_of(lower: Seq<char>) -> LinuxDistro {
    if contains(lower, "id=debian"@) || contains(lower, "id=ubuntu"@) || contains(
        lower,
        "id=mint"@,
    ) || contains(lower, "id_like=debian"@) {
        LinuxDistro::Debian
    } else if contains(lower, "id=fedora"@) || contains(lower, "id=rhel"@) || contains(
        lower,
        "id=centos"@,
    ) {
        LinuxDistro::RedHat
    } else if contains(lower, "id=arch"@) || contains(lower, "id=manjaro"@) {
        LinuxDistro::Arch
    } else {
        LinuxDistro::Debian
    }
}

/// Tells the distribution family from an os-release text in lower case.
pub fn classify_os_release(lower: &str) -> (r: LinuxDistro)
    ensures
        r == distro_of(lower@),
{
    if contains_str(lower, "id=debian") || contains_str(lower, "id=ubuntu") || contains_str(
        lower,
        "id=mint",
    ) || contains_str(lower, "id_like=debian") {
        LinuxDistro::Debian
    } else if contains_str(lower, "id=fedora") || contains_str(lower, "id=rhel") || contains_str(
        lower,
        "id=centos",
    ) {
        LinuxDistro::RedHat
    } else if contains_str(lower, "id=arch") || contains_str(lower, "id=manjaro") {
        LinuxDistro::Arch
    } else {
        LinuxDistro::Debian
    }
}

/// Tells the distribution family from the text of an os-release file,
/// whatever its case.
pub fn parse_os_release(content: &str) -> (r: LinuxDistro)
    ensures
        r == distro_of(lowercase(content@)),
{
    let lower = to_lowercase(content);
    classify_os_release(lower.as_str())
}

/// The platform to install on: macOS needs Homebrew, Linux goes by the
/// text of its os-release file, and nothing else is supported.
pub fn platform_for(os: HostOs, have_brew: bool, os_release: &str) -> (r: Result<
    Platform,
    PlatformError,
>)
    ensures
        r == (match os {
            HostOs::MacOS => if have_brew {
                Ok(Platform::MacOS)
            } else {
                Err(PlatformError::NoHomebrew)
            },
            HostOs::Linux => Ok(Platform::Linux(distro_of(lowercase(os_release@)))),
            HostOs::Other => Err(PlatformError::Unsupported),
        }),
{
    match os {
        HostOs::MacOS => if have_brew {
            Ok(Platform::MacOS)
        } else {
            Err(PlatformError::NoHomebrew)
        },
        HostOs::Linux => Ok(Platform::Linux(parse_os_release(os_release))),
        HostOs::Other => Err(PlatformError::Unsupported),
    }
}

/// The programs that are missing, in the order the tool asks for them.
pub fn missing_dependencies(have_ytdlp: bool, have_mpv: bool) -> (r: Vec<&'static str>)
    ensures
        views(r@) == (if have_ytdlp {
            Seq::<Seq<char>>::empty()
        } else {
            seq!["yt-dlp"@]
        }) + (if have_mpv {
            Seq::<Seq<char>>::empty()
        } else {
            seq!["mpv"@]
        }),
{
    let mut r: Vec<&'static str> = Vec::new();
    if !have_ytdlp {
        r.push("yt-dlp");
    }
    if !have_mpv {
        r.push("mpv");
    }
    r
}

/// The program that installs on `platform`, and the words that go before
/// the names of the packages.
pub open spec fn installer(platform: Platform) -> (Seq<char>, Seq<Seq<char>>) {
    match platform {
        Platform::MacOS => ("brew"@, seq!["install"@]),
        Platform::Linux(LinuxDistro::Debian) => ("sh"@, seq!["-c"@]),
        Platform::Linux(LinuxDistro::RedHat) => ("sudo"@, seq!["dnf"@, "install"@, "-y"@]),
        Platform::Linux(LinuxDistro::Arch) => ("sudo"@, seq!["pacman"@, "-S"@, "--noconfirm"@]),
    }
}

/// The arguments that install `deps` on `platform`. On the Debian family
/// they are one shell command that refreshes the package lists first.
pub open spec fn install_args(platform: Platform, deps: Seq<Seq<char>>) -> Seq<Seq<char>> {
    match platform {
        Platform::Linux(LinuxDistro::Debian) => seq![
            "-c"@,
            "sudo apt update && sudo apt install -y "@ + join(deps, " "@),
        ],
        _ => installer(platform).1 + deps,
    }
}

/// The program and the arguments that install `deps` on `platform`.
pub fn get_install_command(platform: &Platform, deps: &[&str]) -> (r: (&'static str, Vec<String>))
    ensures
        r.0@ == installer(*platform).0,
        string_views(r.1@) == install_args(*platform, views(deps@)),
{
    let mut args: Vec<String> = Vec::new();
    let program = match platform {
        Platform::MacOS => {
            args.push("install".to_owned());
            "brew"
        },
        Platform::Linux(LinuxDistro::Debian) => {
            let packages = join_strs(deps, " ");
            args.push("-c".to_owned());
            args.push(concat2("sudo apt update && sudo apt install -y ", packages.as_str()));
            return ("sh", args);
        },
        Platform::Linux(LinuxDistro::RedHat) => {
            args.push("dnf".to_owned());
            args.push("install".to_owned());
            args.push("-y".to_owned());
            "sudo"
        },
        Platform::Linux(LinuxDistro::Arch) => {
            args.push("pacman".to_owned());
            args.push("-S".to_owned());
            args.push("--noconfirm".to_owned());
            "sudo"
        },
    };
    let ghost head = string_views(args@);
    let mut i: usize = 0;
    while i < deps.len()
        invariant
            i <= deps.len(),
            string_views(args@) == head + views(deps@).take(i as int),
        decreases deps.len() - i,
    {
        let ghost before = string_views(args@);
        let word = deps[i].to_owned();
        args.push(word);
        proof {
            assert(string_views(args@) =~= before.push(word@));
        }
        i += 1;
    }
    (program, args)
}

/// The name of the package manager of `platform`.
pub open spec fn package_manager(platform: Platform) -> Seq<char> {
    match platform {
        Platform::MacOS => "Homebrew"@,
        Platform::Linux(LinuxDistro::Debian) => "apt"@,
        Platform::Linux(LinuxDistro::RedHat) => "dnf"@,
        Platform::Linux(LinuxDistro::Arch) => "pacman"@,
    }
}

/// The name of the package manager of `platform`.
pub fn get_package_manager_name(platform: &Platform) -> (r: &'static str)
    ensures
        r@ == package_manager(*platform),
{
    match platform {
        Platform::MacOS => "Homebrew",
        Platform::Linux(LinuxDistro::Debian) => "apt",
        Platform::Linux(LinuxDistro::RedHat) => "dnf",
        Platform::Linux(LinuxDistro::Arch) => "pacman",
    }
}

/// Whether installing on `platform` asks for the administrator's password.
pub fn needs_sudo(platform: &Platform) -> (r: bool)
    ensures
        r == (*platform != Platform::MacOS),
{
    match platform {
        Platform::MacOS => false,
        _ => true,
    }
}

/// What the user can type to install on `platform` by hand, up to the
/// names of the packages.
pub open spec fn manual_prefix(platform: Platform) -> Seq<char> {
    match platform {
        Platform::MacOS => "brew install "@,
        Platform::Linux(LinuxDistro::Debian) => "sudo apt install "@,
        Platform::Linux(LinuxDistro::RedHat) => "sudo dnf install "@,
        Platform::Linux(LinuxDistro::Arch) => "sudo pacman -S "@,
    }
}

/// The command that installs `deps` on `platform` by hand.
pub fn format_manual_command(platform: &Platform, deps: &[&str]) -> (r: String)
    ensures
        r@ == manual_prefix(*platform) + join(views(deps@), " "@),
{
    let packages = join_strs(deps, " ");
    let prefix = match platform {
        Platform::MacOS => "brew install ",
        Platform::Linux(LinuxDistro::Debian) => "sudo apt install ",
        Platform::Linux(LinuxDistro::RedHat) => "sudo dnf install ",
        Platform::Linux(LinuxDistro::Arch) => "sudo pacman -S ",
    };
    concat2(prefix, packages.as_str())
}

/// Whether an answer in lower case, trimmed, agrees to the installation:
/// nothing at all, `y` or `yes`.
pub open spec fn agrees(answer: Seq<char>) -> bool {
    answer.len() == 0 || answer == "y"@ || answer == "yes"@
}

/// Whether an answer in lower case, trimmed, agrees to the installation.
pub fn accepts_answer(answer: &str) -> (r: bool)
    ensures
        r == agrees(answer@),
{
    answer.is_empty() || same(answer, "y") || same(answer, "yes")
}

/// Whether the line that the user typed agrees to the installation.
pub fn accepts(line: &str) -> (r: bool)
    ensures
        r == agrees(lowercase(trim(line@))),
{
    let v = to_chars(line);
    assert(v@.subrange(0, v.len() as int) =~= line@);
    let (a, b) = trim_range(&v, 0, v.len());
    let trimmed = string_of(&v, a, b);
    let lower = to_lowercase(trimmed.as_str());
    accepts_answer(lower.as_str())
}

} // verus!
