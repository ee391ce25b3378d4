use cyber_incident_simulator::attack::procedures::{
    brute_force_procedure, credential_dump_procedure, data_exfil_procedure, lateral_movement_procedure,
    phishing_procedure, ransomware_procedure,
};
use cyber_incident_simulator::attack::{find_technique, technique_registry, AttackProcedure, MitreMapper, Tactic};

#[test]
fn registry_holds_twenty_techniques_in_order() {
    let r = technique_registry();
    assert_eq!(r.len(), 20);
    assert_eq!(r[0].id, "T1566.001");
    assert_eq!(r[0].name, "Spearphishing Attachment");
    assert_eq!(r[0].tactic, Tactic::InitialAccess);
    assert_eq!(r[19].id, "T1134.001");
    assert_eq!(r[19].tactic, Tactic::PrivilegeEscalation);
}

#[test]
fn find_technique_by_id() {
    let t = find_technique("T1059.001").unwrap();
    assert_eq!(t.name, "PowerShell");
    assert_eq!(t.tactic, Tactic::Execution);
    assert!(find_technique("T9999").is_none());
    assert!(find_technique("t1059.001").is_none());
}

#[test]
fn tactic_ids_and_names() {
    assert_eq!(Tactic::CommandAndControl.id(), "TA0011");
    assert_eq!(Tactic::CommandAndControl.name(), "Command and Control");
    assert_eq!(Tactic::Impact.id(), "TA0040");
    assert_eq!(Tactic::Reconnaissance.name(), "Reconnaissance");
}

#[test]
fn tactic_from_technique_prefix() {
    assert_eq!(Tactic::from_technique_id("T1566.002"), Some(Tactic::InitialAccess));
    assert_eq!(Tactic::from_technique_id("T1053.005"), Some(Tactic::Persistence));
    assert_eq!(Tactic::from_technique_id("T1110"), Some(Tactic::CredentialAccess));
    assert_eq!(Tactic::from_technique_id("T1095"), Some(Tactic::CommandAndControl));
    assert_eq!(Tactic::from_technique_id("T1069.002"), Some(Tactic::Discovery));
    assert_eq!(Tactic::from_technique_id("T1190"), None);
    assert_eq!(Tactic::from_technique_id(""), None);
}

#[test]
fn mitre_mapper_display_and_tactic() {
    assert_eq!(MitreMapper::display_name("T1486"), "T1486 - Data Encrypted for Impact");
    assert_eq!(MitreMapper::display_name("T0000"), "T0000");
    assert!(MitreMapper::is_in_tactic("T1486", &Tactic::Impact));
    assert!(!MitreMapper::is_in_tactic("T1486", &Tactic::Execution));
    assert!(!MitreMapper::is_in_tactic("X", &Tactic::Execution));
    assert_eq!(MitreMapper::tactic_for("T1021.002"), Some(Tactic::LateralMovement));
    assert_eq!(MitreMapper::resolve("T1046").unwrap().name, "Network Service Scanning");
}

#[test]
fn mitre_mapper_uses_the_registry_first() {
    assert_eq!(MitreMapper::tactic_for("T1047"), Some(Tactic::Execution));
    assert_eq!(MitreMapper::tactic_for("T1190"), Some(Tactic::InitialAccess));
    assert_eq!(MitreMapper::tactic_for("T1505.003"), Some(Tactic::Persistence));
    assert!(MitreMapper::is_in_tactic("T1047", &Tactic::Execution));
    assert_eq!(MitreMapper::tactic_for("T1069.002"), Some(Tactic::Discovery));
    assert_eq!(MitreMapper::tactic_for("T9999"), None);
}

#[test]
fn procedures_carry_steps_and_tools() {
    let p = brute_force_procedure();
    assert_eq!(p.id, "proc-bf-01");
    assert_eq!(p.technique_id, "T1110.001");
    assert_eq!(p.steps.len(), 5);
    assert_eq!(p.tools, vec!["Hydra".to_string(), "Medusa".to_string(), "Ncrack".to_string()]);
    assert_eq!(phishing_procedure().technique_id, "T1566.001");
    assert_eq!(credential_dump_procedure().tools[0], "Mimikatz");
    assert_eq!(lateral_movement_procedure().tools.len(), 4);
    assert_eq!(ransomware_procedure().steps[1], "Delete volume shadow copies to prevent recovery");
    assert_eq!(data_exfil_procedure().name, "DNS Tunnel Exfiltration");
}

#[test]
fn procedure_builder_replaces_lists() {
    let p = AttackProcedure::new("p", "n", "T1").with_steps(vec!["a", "b"]).with_tools(vec!["t"]);
    assert_eq!(p.steps, vec!["a".to_string(), "b".to_string()]);
    assert_eq!(p.tools, vec!["t".to_string()]);
    let q = p.with_steps(vec![]);
    assert!(q.steps.is_empty());
    assert_eq!(q.tools.len(), 1);
}
