use higher_dimension_playground::diagnostics::{
    diagnostics_settings, periodic_due, plan_entity_diagnostics, DiagnosticsEnv, DiagnosticsSettings,
    EntityDiagFrame, EntityDiagHistory,
};

fn no_env() -> DiagnosticsEnv<'static> {
    DiagnosticsEnv {
        diagnostics_build: false,
        entity_diag: None,
        entity_diag_verbose: None,
        entity_diag_bvh_readback: None,
        entity_diag_bvh_topology: None,
        entity_diag_bvh_interval: None,
        stage_a_breakdown: None,
        stage_a_breakdown_interval: None,
        world_bvh_ray_diag: None,
        world_bvh_ray_diag_samples: None,
        world_bvh_ray_diag_interval: None,
    }
}

#[test]
fn diagnostics_settings_defaults() {
    let s = diagnostics_settings(&no_env(), 256);
    assert!(!s.entity_diag_enabled);
    assert!(!s.entity_diag_verbose);
    assert!(!s.entity_diag_bvh_readback);
    assert!(!s.entity_diag_bvh_topology);
    assert_eq!(s.entity_diag_interval, 120);
    assert!(!s.stage_a_breakdown_enabled);
    assert_eq!(s.stage_a_breakdown_interval, 120);
    assert!(!s.world_bvh_ray_diag_enabled);
    assert_eq!(s.world_bvh_ray_diag_samples, 64);
    assert_eq!(s.world_bvh_ray_diag_interval, 60);
}

#[test]
fn diagnostics_settings_from_environment() {
    let mut env = no_env();
    env.entity_diag = Some("1");
    env.entity_diag_verbose = Some("yes");
    env.entity_diag_bvh_interval = Some(" 30 ");
    env.stage_a_breakdown_interval = Some("0");
    env.world_bvh_ray_diag_samples = Some("1000");
    env.world_bvh_ray_diag_interval = Some("7");
    let s = diagnostics_settings(&env, 256);
    // Without the diagnostics in the build every switch stays off.
    assert!(!s.entity_diag_enabled);
    assert!(!s.entity_diag_verbose);
    assert_eq!(s.entity_diag_interval, 30);
    assert_eq!(s.stage_a_breakdown_interval, 120);
    assert_eq!(s.world_bvh_ray_diag_samples, 256);
    assert_eq!(s.world_bvh_ray_diag_interval, 7);
    let few = diagnostics_settings(&env, 4);
    assert_eq!(few.world_bvh_ray_diag_samples, 4);
}

#[test]
fn diagnostics_settings_in_a_diagnostics_build() {
    let mut env = no_env();
    env.diagnostics_build = true;
    env.entity_diag = Some("1");
    env.entity_diag_verbose = Some("yes");
    env.entity_diag_bvh_topology = Some("1");
    env.stage_a_breakdown = Some("on");
    let s = diagnostics_settings(&env, 256);
    assert!(s.entity_diag_enabled);
    assert!(s.entity_diag_verbose);
    // The topology check needs read-backs, which are off.
    assert!(!s.entity_diag_bvh_readback);
    assert!(!s.entity_diag_bvh_topology);
    assert!(s.stage_a_breakdown_enabled);
    assert!(!s.world_bvh_ray_diag_enabled);
    env.entity_diag_bvh_readback = Some("true");
    let t = diagnostics_settings(&env, 256);
    assert!(t.entity_diag_bvh_readback);
    assert!(t.entity_diag_bvh_topology);
    env.entity_diag = None;
    let u = diagnostics_settings(&env, 256);
    assert!(!u.entity_diag_enabled);
    assert!(!u.entity_diag_verbose);
    assert!(!u.entity_diag_bvh_readback);
    assert!(!u.entity_diag_bvh_topology);
}

#[test]
fn periodic_reports() {
    assert!(periodic_due(None, 0, 120));
    assert!(!periodic_due(Some(100), 150, 120));
    assert!(periodic_due(Some(100), 220, 120));
    assert!(!periodic_due(Some(300), 220, 120));
    assert!(periodic_due(Some(5), 6, 0));
}

fn enabled_settings(verbose: bool) -> DiagnosticsSettings {
    DiagnosticsSettings {
        entity_diag_enabled: true,
        entity_diag_verbose: verbose,
        entity_diag_bvh_readback: true,
        entity_diag_bvh_topology: false,
        entity_diag_interval: 10,
        stage_a_breakdown_enabled: false,
        stage_a_breakdown_interval: 120,
        world_bvh_ray_diag_enabled: false,
        world_bvh_ray_diag_samples: 64,
        world_bvh_ray_diag_interval: 60,
    }
}

fn frame(frames_rendered: usize, used: usize, leaves: usize) -> EntityDiagFrame {
    EntityDiagFrame {
        do_voxel_vte: true,
        frames_rendered,
        input_non_voxel: used,
        used_non_voxel: used,
        bvh_leaves: leaves,
        dropped_instances: 0,
        outlier_instances: 0,
    }
}

#[test]
fn entity_diagnostics_quiet_frame() {
    let h = EntityDiagHistory { prev_used_non_voxel: Some(3), prev_tets_non_voxel: Some(60), last_log_frame: Some(20) };
    let p = plan_entity_diagnostics(&enabled_settings(false), &h, &frame(23, 3, 60));
    assert!(!p.anomaly);
    assert!(!p.periodic_due);
    assert!(!p.copy_requested);
    assert!(!p.report);
    assert_eq!(p.scheduled_tet_count, 60);
    assert_eq!(p.history, EntityDiagHistory { prev_used_non_voxel: Some(3), prev_tets_non_voxel: Some(60), last_log_frame: Some(20) });
}

#[test]
fn entity_diagnostics_periodic_and_anomalies() {
    let h = EntityDiagHistory { prev_used_non_voxel: Some(3), prev_tets_non_voxel: Some(60), last_log_frame: Some(20) };
    let due = plan_entity_diagnostics(&enabled_settings(false), &h, &frame(30, 3, 60));
    assert!(due.periodic_due);
    assert!(due.copy_requested);
    assert!(due.report);
    assert_eq!(due.history.last_log_frame, Some(30));

    let gone = plan_entity_diagnostics(&enabled_settings(false), &h, &frame(23, 3, 0));
    assert!(gone.anomaly);
    assert!(!gone.copy_requested);
    assert!(gone.report);
    assert_eq!(gone.history.prev_tets_non_voxel, Some(0));

    let mut dropped = frame(23, 3, 60);
    dropped.dropped_instances = 1;
    let d = plan_entity_diagnostics(&enabled_settings(false), &h, &dropped);
    assert!(d.anomaly);
    assert!(d.copy_requested);

    let mut raster = frame(23, 3, 60);
    raster.do_voxel_vte = false;
    let r = plan_entity_diagnostics(&enabled_settings(true), &h, &raster);
    assert!(!r.copy_requested);
    assert!(r.report);
    assert_eq!(r.scheduled_tet_count, 0);
    assert_eq!(r.history, EntityDiagHistory { prev_used_non_voxel: None, prev_tets_non_voxel: None, last_log_frame: Some(23) });

    let mut off = enabled_settings(true);
    off.entity_diag_enabled = false;
    let o = plan_entity_diagnostics(&off, &h, &dropped);
    assert!(o.anomaly);
    assert!(!o.copy_requested);
    assert!(!o.report);
}
