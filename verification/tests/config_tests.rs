use vmm::config::{build_terminated_if_name, terminated_if_name, IfReqBuilder, NetConfig,
    VMMConfig, KernelConfig};
use vmm::config::Error as ConfigError;

#[test]
fn test_fail_string_long_netconfig() {
    let invalid_if_name = String::from("this_string_is_way_too_long_for_tap_name");
    let net_result: Result<NetConfig, ConfigError> = NetConfig::try_from(invalid_if_name);

    assert!(net_result.is_err())
}

#[test]
fn test_success_try_from_string_netconfig() {
    let origin = String::from("str");

    let target: Result<NetConfig, ConfigError> = NetConfig::try_from(origin.clone());
    assert_eq!(false, target.is_err());
    assert_eq!(NetConfig { tap_name: origin }, target.unwrap());
}

#[test]
fn tap_name_fifteen_chars_accepted() {
    let name = String::from("abcdefghijklmno");
    assert_eq!(name.len(), 15);
    assert!(NetConfig::try_from(name).is_ok());
}

#[test]
fn tap_name_sixteen_chars_rejected() {
    let name = String::from("abcdefghijklmnop");
    assert_eq!(name.len(), 16);
    assert!(NetConfig::try_from(name).is_err());
}

#[test]
fn terminated_name_padded_with_nul() {
    let r = build_terminated_if_name("tap0").unwrap();
    assert_eq!(r.len(), 16);
    assert_eq!(&r[..4], b"tap0");
    assert!(r[4..].iter().all(|&b| b == 0));
}

#[test]
fn terminated_name_too_long_gives_tap_name_error() {
    let e = build_terminated_if_name("abcdefghijklmnop").unwrap_err();
    assert_eq!(e, vmm::Error::TapName);
}

#[test]
fn terminated_name_variants_agree_on_the_boundary() {
    // Fifteen bytes leave room for the terminator; sixteen do not.
    assert!(build_terminated_if_name("abcdefghijklmno").is_ok());
    assert!(build_terminated_if_name("abcdefghijklmnop").is_err());
    let r = terminated_if_name("abcdefghijklmno").unwrap();
    assert_eq!(&r[..15], b"abcdefghijklmno");
    assert_eq!(r[15], 0);
    assert!(terminated_if_name("abcdefghijklmnop").is_err());
}

#[test]
fn ifreq_builder_sets_name_and_flags() {
    let name = build_terminated_if_name("tap1").unwrap();
    let req = IfReqBuilder::new().if_name(name).flags(0x1012).build();
    assert_eq!(&req.ifr_name[..4], b"tap1");
    assert_eq!(req.flags, 0x1012);
}

#[test]
fn builder_carries_every_field() {
    let kernel = KernelConfig {
        kernel_path: String::from("/boot/vmlinux"),
        cmdline: KernelConfig::default_cmdline(),
    };
    let b = VMMConfig::builder(2, 512, kernel)
        .unwrap()
        .verbose(3)
        .console(Some(String::from("/tmp/console")))
        .initramfs(Some(String::from("/boot/initrd")))
        .tap(Some(String::from("tap0")))
        .unwrap();
    let cfg = b.build();
    assert_eq!(cfg.cpus, 2);
    assert_eq!(cfg.memory, 512);
    assert_eq!(cfg.verbose, 3);
    assert_eq!(cfg.console.as_deref(), Some("/tmp/console"));
    assert_eq!(cfg.initramfs.as_deref(), Some("/boot/initrd"));
    assert_eq!(cfg.kernel.kernel_path, "/boot/vmlinux");
    assert_eq!(cfg.tap.unwrap().tap_name, "tap0");
}

#[test]
fn builder_rejects_long_tap_name() {
    let kernel = KernelConfig {
        kernel_path: String::from("/boot/vmlinux"),
        cmdline: KernelConfig::default_cmdline(),
    };
    let r = VMMConfig::builder(1, 128, kernel).unwrap().tap(Some(String::from(
        "this_string_is_way_too_long_for_tap_name",
    )));
    assert!(r.is_err());
}

#[test]
fn default_cmdline_matches_literal() {
    let c = KernelConfig::default_cmdline();
    let bytes = c.as_bytes_nul();
    assert_eq!(&bytes[..bytes.len() - 1], b"console=ttyS0 i8042.nokbd reboot=k panic=1 pci=off");
    assert_eq!(*bytes.last().unwrap(), 0);
}
