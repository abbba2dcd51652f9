use youtui::deps::{
    accepts, accepts_answer, classify_os_release, format_manual_command, get_install_command,
    get_package_manager_name, missing_dependencies, needs_sudo, parse_os_release, platform_for,
    HostOs, LinuxDistro, Platform, PlatformError,
};

#[test]
fn test_parse_os_release_debian() {
    let content = "ID=ubuntu\nID_LIKE=debian\n";
    assert_eq!(parse_os_release(content), LinuxDistro::Debian);
}

#[test]
fn test_parse_os_release_fedora() {
    let content = "ID=fedora\n";
    assert_eq!(parse_os_release(content), LinuxDistro::RedHat);
}

#[test]
fn test_parse_os_release_arch() {
    let content = "ID=arch\n";
    assert_eq!(parse_os_release(content), LinuxDistro::Arch);
}

#[test]
fn test_parse_os_release_default() {
    let content = "ID=unknown\n";
    assert_eq!(parse_os_release(content), LinuxDistro::Debian);
}

#[test]
fn test_get_install_command_macos() {
    let (program, args) = get_install_command(&Platform::MacOS, &["mpv", "yt-dlp"]);
    assert_eq!(program, "brew");
    assert_eq!(args, vec!["install", "mpv", "yt-dlp"]);
}

#[test]
fn test_get_install_command_debian() {
    let (program, args) = get_install_command(
        &Platform::Linux(LinuxDistro::Debian),
        &["mpv", "yt-dlp"]
    );
    assert_eq!(program, "sh");
    assert_eq!(args[0], "-c");
    assert!(args[1].contains("apt update"));
    assert!(args[1].contains("apt install"));
}

#[test]
fn test_get_install_command_redhat() {
    let (program, args) = get_install_command(
        &Platform::Linux(LinuxDistro::RedHat),
        &["mpv", "yt-dlp"]
    );
    assert_eq!(program, "sudo");
    assert_eq!(args, vec!["dnf", "install", "-y", "mpv", "yt-dlp"]);
}

#[test]
fn test_get_install_command_arch() {
    let (program, args) = get_install_command(
        &Platform::Linux(LinuxDistro::Arch),
        &["mpv", "yt-dlp"]
    );
    assert_eq!(program, "sudo");
    assert_eq!(args, vec!["pacman", "-S", "--noconfirm", "mpv", "yt-dlp"]);
}

#[test]
fn debian_install_command_is_one_shell_line() {
    let (_, args) = get_install_command(&Platform::Linux(LinuxDistro::Debian), &["mpv", "yt-dlp"]);
    assert_eq!(args.len(), 2);
    assert_eq!(args[1], "sudo apt update && sudo apt install -y mpv yt-dlp");
    let (_, none) = get_install_command(&Platform::Linux(LinuxDistro::Debian), &[]);
    assert_eq!(none[1], "sudo apt update && sudo apt install -y ");
}

#[test]
fn os_release_is_read_whatever_its_case() {
    assert_eq!(parse_os_release("Id=Manjaro\n"), LinuxDistro::Arch);
    assert_eq!(parse_os_release("NAME=x\nID=centos"), LinuxDistro::RedHat);
    assert_eq!(parse_os_release("ID=rhel"), LinuxDistro::RedHat);
    assert_eq!(parse_os_release("ID=MINT"), LinuxDistro::Debian);
    assert_eq!(parse_os_release(""), LinuxDistro::Debian);
    assert_eq!(parse_os_release("ID_LIKE=debian\nID=arch"), LinuxDistro::Debian);
}

#[test]
fn classify_reads_lower_case_only() {
    assert_eq!(classify_os_release("id=fedora"), LinuxDistro::RedHat);
    assert_eq!(classify_os_release("ID=fedora"), LinuxDistro::Debian);
    assert_eq!(classify_os_release("xid=archx"), LinuxDistro::Arch);
    assert_eq!(classify_os_release("id=arc"), LinuxDistro::Debian);
}

#[test]
fn package_manager_names() {
    assert_eq!(get_package_manager_name(&Platform::MacOS), "Homebrew");
    assert_eq!(get_package_manager_name(&Platform::Linux(LinuxDistro::Debian)), "apt");
    assert_eq!(get_package_manager_name(&Platform::Linux(LinuxDistro::RedHat)), "dnf");
    assert_eq!(get_package_manager_name(&Platform::Linux(LinuxDistro::Arch)), "pacman");
    assert!(!needs_sudo(&Platform::MacOS));
    assert!(needs_sudo(&Platform::Linux(LinuxDistro::Arch)));
}

#[test]
fn manual_commands() {
    assert_eq!(format_manual_command(&Platform::MacOS, &["yt-dlp", "mpv"]), "brew install yt-dlp mpv");
    assert_eq!(
        format_manual_command(&Platform::Linux(LinuxDistro::Debian), &["mpv"]),
        "sudo apt install mpv"
    );
    assert_eq!(
        format_manual_command(&Platform::Linux(LinuxDistro::RedHat), &["mpv"]),
        "sudo dnf install mpv"
    );
    assert_eq!(
        format_manual_command(&Platform::Linux(LinuxDistro::Arch), &["yt-dlp"]),
        "sudo pacman -S yt-dlp"
    );
}

#[test]
fn missing_dependencies_in_order() {
    assert_eq!(missing_dependencies(false, false), vec!["yt-dlp", "mpv"]);
    assert_eq!(missing_dependencies(true, false), vec!["mpv"]);
    assert_eq!(missing_dependencies(false, true), vec!["yt-dlp"]);
    assert!(missing_dependencies(true, true).is_empty());
}

#[test]
fn platform_by_host() {
    assert_eq!(platform_for(HostOs::MacOS, true, ""), Ok(Platform::MacOS));
    assert_eq!(platform_for(HostOs::MacOS, false, ""), Err(PlatformError::NoHomebrew));
    assert_eq!(
        platform_for(HostOs::Linux, false, "NAME=Fedora\nID=Fedora\n"),
        Ok(Platform::Linux(LinuxDistro::RedHat))
    );
    assert_eq!(platform_for(HostOs::Linux, true, ""), Ok(Platform::Linux(LinuxDistro::Debian)));
    assert_eq!(platform_for(HostOs::Other, true, "id=arch"), Err(PlatformError::Unsupported));
}

#[test]
fn answers_to_the_install_prompt() {
    assert!(accepts("\n"));
    assert!(accepts("  Y \n"));
    assert!(accepts("yes\n"));
    assert!(accepts("YES"));
    assert!(!accepts("n\n"));
    assert!(!accepts("yess"));
    assert!(!accepts("no"));
    assert!(accepts_answer(""));
    assert!(accepts_answer("y"));
    assert!(!accepts_answer("Y"));
}
