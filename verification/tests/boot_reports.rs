use benchscale::backend::libvirt::boot_diagnostics::{
    domain_state_str, format_dominfo_like, journal_ssh_args, journal_users_list,
    kernel_cmdline_from_xml, BootDiagnosticsReport, DomainInfo,
};

#[test]
fn domain_states_read_as_virsh_words() {
    assert_eq!(domain_state_str(0), "no state");
    assert_eq!(domain_state_str(1), "running");
    assert_eq!(domain_state_str(5), "shut off");
    assert_eq!(domain_state_str(7), "pmsuspended");
    assert_eq!(domain_state_str(42), "unknown");
}

#[test]
fn dominfo_summary_lists_every_field() {
    let info = DomainInfo { state: 1, max_mem: 4194304, memory: 2097152, nr_virt_cpu: 4, cpu_time: 123456789 };
    assert_eq!(
        format_dominfo_like("vm1", &info),
        "Name:           vm1\nState:          running\nCPU(s):         4\nCPU time:       123456789\nMax memory:     4194304 KiB\nUsed memory:    2097152 KiB\n"
    );
}

#[test]
fn kernel_cmdline_is_read_from_domain_xml() {
    let xml = "<domain><os><kernel>/boot/vmlinuz</kernel><cmdline>console=ttyS0 quiet</cmdline></os></domain>";
    assert_eq!(kernel_cmdline_from_xml(xml), Some("console=ttyS0 quiet".to_string()));
    assert_eq!(kernel_cmdline_from_xml("<domain><os/></domain>"), None);
    assert_eq!(kernel_cmdline_from_xml("<cmdline>unterminated"), None);
}

#[test]
fn journal_is_read_over_ssh_in_batch_mode() {
    assert_eq!(journal_users_list(), vec!["ubuntu", "reagent", "builder", "cosmic"]);
    let args = journal_ssh_args("ubuntu", "192.168.122.50");
    assert_eq!(args.len(), 10);
    assert_eq!(&args[..8], &["-o", "StrictHostKeyChecking=no", "-o", "UserKnownHostsFile=/dev/null", "-o", "ConnectTimeout=5", "-o", "BatchMode=yes"]);
    assert_eq!(args[8], "ubuntu@192.168.122.50");
    assert!(args[9].starts_with("journalctl --no-pager --boot -0 --priority warning --lines 200"));
}

#[test]
fn report_keeps_the_last_fifty_console_lines() {
    let console: Vec<String> = (1..=60).map(|i| format!("line {}", i)).collect();
    let report = BootDiagnosticsReport {
        vm_name: "vm1".to_string(),
        serial_console: console.join("\n"),
        journal_logs: "journal".to_string(),
        boot_parameters: "console=ttyS0".to_string(),
        vm_state: "running".to_string(),
    };
    let text = report.format();
    assert!(text.contains("VM: vm1\n"));
    assert!(text.contains("line 11\nline 12"));
    assert!(!text.contains("line 10\n"));
    assert!(text.contains("line 60\n\n"));
    assert!(text.ends_with("journal\n\n"));
}
