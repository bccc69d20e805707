use classic_macos_target::layout::{declares_pointer_width, leads_with_marker, Endian};
use classic_macos_target::target::{
    target, BinaryFormat, Cc, LinkerFlavor, PanicStrategy, RelocModel, TargetError,
};

fn strings(items: &[&str]) -> Vec<String> {
    items.iter().map(|s| s.to_string()).collect()
}

#[test]
fn target_is_32_bit_big_endian() {
    let t = target();
    assert_eq!(t.pointer_width, 32);
    assert_eq!(t.options.endian, Endian::Big);
    assert!(t.data_layout.starts_with("E-"));
    assert_eq!(t.data_layout, "E-m:e-p:32:32-Fn32-i64:64-n32");
    assert_eq!(t.arch, "powerpc");
    assert_eq!(t.llvm_target, "powerpc-apple-classic");
}

#[test]
fn target_options_match_the_platform() {
    let t = target();
    let o = &t.options;
    assert_eq!(o.os, "none");
    assert_eq!(o.vendor, "unknown");
    assert_eq!(o.binary_format, BinaryFormat::Elf);
    assert_eq!(o.linker_flavor, LinkerFlavor::Unix(Cc::No));
    assert_eq!(o.linker.as_deref(), Some("ld.lld"));
    assert!(!o.dynamic_linking);
    assert!(!o.has_rpath);
    assert!(!o.has_thread_local);
    assert!(!o.position_independent_executables);
    assert_eq!(o.max_atomic_width, Some(32));
    assert_eq!(o.cpu, "ppc");
    assert_eq!(o.features, "-altivec,-vsx");
    assert!(!o.function_sections);
    assert!(o.families.is_empty());
    assert_eq!(o.panic_strategy, PanicStrategy::Abort);
    assert_eq!(o.relocation_model, RelocModel::Static);
    assert_eq!(o.pre_link_args, strings(&["-flavor", "pef", "-e", "__start"]));
    assert_eq!(o.late_link_args, strings(&["-lInterfaceLib"]));
    assert_eq!(t.metadata.description.as_deref(), Some("PowerPC Classic Mac OS (System 7-9)"));
    assert_eq!(t.metadata.tier, Some(3));
    assert_eq!(t.metadata.host_tools, Some(false));
    assert_eq!(t.metadata.has_std, Some(false));
}

#[test]
fn target_keeps_its_rules() {
    assert_eq!(target().check_consistency(), Ok(()));
}

#[test]
fn static_linking_excludes_rpath_and_pie() {
    let t = target();
    assert!(t.check_consistency().is_ok());
    assert!(!t.options.dynamic_linking);
    assert!(!t.options.has_rpath);
    assert!(!t.options.position_independent_executables);
}

#[test]
fn little_endian_marker_is_rejected_for_big_endian_target() {
    let mut t = target();
    t.data_layout = "e-m:e-p:32:32-Fn32-i64:64-n32".to_string();
    assert_eq!(t.check_consistency(), Err(TargetError::EndianMismatch));
}

#[test]
fn little_endian_target_with_little_endian_layout_is_accepted() {
    let mut t = target();
    t.options.endian = Endian::Little;
    t.data_layout = "e-m:e-p:32:32-Fn32-i64:64-n32".to_string();
    assert_eq!(t.check_consistency(), Ok(()));
}

#[test]
fn pointer_width_must_agree_with_layout() {
    let mut t = target();
    t.pointer_width = 64;
    assert_eq!(t.check_consistency(), Err(TargetError::PointerWidthMismatch));
}

#[test]
fn endian_is_checked_before_pointer_width() {
    let mut t = target();
    t.pointer_width = 64;
    t.data_layout = "e-p:32:32".to_string();
    assert_eq!(t.check_consistency(), Err(TargetError::EndianMismatch));
}

#[test]
fn pie_without_dynamic_linking_is_rejected() {
    let mut t = target();
    t.options.position_independent_executables = true;
    assert_eq!(t.check_consistency(), Err(TargetError::PieWithoutDynamicLinking));
}

#[test]
fn rpath_without_dynamic_linking_is_rejected() {
    let mut t = target();
    t.options.has_rpath = true;
    assert_eq!(t.check_consistency(), Err(TargetError::RpathWithoutDynamicLinking));
}

#[test]
fn pie_and_rpath_with_dynamic_linking_are_accepted() {
    let mut t = target();
    t.options.dynamic_linking = true;
    t.options.has_rpath = true;
    t.options.position_independent_executables = true;
    assert_eq!(t.check_consistency(), Ok(()));
}

#[test]
fn marker_must_lead_the_layout() {
    assert!(leads_with_marker("E", Endian::Big));
    assert!(leads_with_marker("E-p:32:32", Endian::Big));
    assert!(leads_with_marker("e-p:64:64", Endian::Little));
    assert!(!leads_with_marker("e-p:64:64", Endian::Big));
    assert!(!leads_with_marker("Ex-p:32:32", Endian::Big));
    assert!(!leads_with_marker("p:32:32-E", Endian::Big));
    assert!(!leads_with_marker("", Endian::Big));
    assert!(!leads_with_marker("", Endian::Little));
}

#[test]
fn pointer_size_is_read_from_the_layout() {
    assert!(declares_pointer_width("E-m:e-p:32:32-Fn32-i64:64-n32", 32));
    assert!(!declares_pointer_width("E-m:e-p:32:32-Fn32-i64:64-n32", 64));
    assert!(declares_pointer_width("e-p:64", 64));
    assert!(declares_pointer_width("p:16:16", 16));
    assert!(declares_pointer_width("E-p:032:32", 32));
    assert!(!declares_pointer_width("E-p:320:32", 32));
    assert!(!declares_pointer_width("E-p0:32:32", 32));
    assert!(!declares_pointer_width("E-p:", 32));
    assert!(!declares_pointer_width("E-p:32x", 32));
    assert!(!declares_pointer_width("E-xp:32", 32));
    assert!(!declares_pointer_width("E-p:99999999999999999999", 32));
    assert!(declares_pointer_width("E-p:4294967295", 4294967295));
    assert!(!declares_pointer_width("", 32));
}

#[test]
fn linker_line_puts_objects_between_the_phases() {
    let mut t = target();
    t.options.binary_format = BinaryFormat::Elf;
    t.options.pre_link_args = strings(&["select-translation-mode=native", "entry=__start"]);
    t.options.late_link_args = strings(&["-lCoreInterfaceLibrary"]);
    let line = t.linker_invocation(&strings(&["a.o", "b.o"]));
    assert_eq!(
        line,
        strings(&[
            "select-translation-mode=native",
            "entry=__start",
            "a.o",
            "b.o",
            "-lCoreInterfaceLibrary"
        ])
    );
}

#[test]
fn linker_line_of_the_target() {
    let t = target();
    let line = t.linker_invocation(&strings(&["main.o"]));
    assert_eq!(line, strings(&["-flavor", "pef", "-e", "__start", "main.o", "-lInterfaceLib"]));
}

#[test]
fn linker_line_without_objects() {
    let t = target();
    let line = t.linker_invocation(&Vec::new());
    assert_eq!(line, strings(&["-flavor", "pef", "-e", "__start", "-lInterfaceLib"]));
    let last_pre = line.iter().position(|a| a == "__start").unwrap();
    let first_late = line.iter().position(|a| a == "-lInterfaceLib").unwrap();
    assert!(last_pre < first_late);
}

#[test]
fn linker_line_with_empty_groups() {
    let mut t = target();
    t.options.pre_link_args = Vec::new();
    t.options.late_link_args = Vec::new();
    let objects = strings(&["x.o", "y.o", "z.o"]);
    assert_eq!(t.linker_invocation(&objects), objects);
    assert!(t.linker_invocation(&Vec::new()).is_empty());
}
