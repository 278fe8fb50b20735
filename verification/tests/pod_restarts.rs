use mcp_k8s::model::{ContainerStatusInfo, PodInfo, PodStatusInfo};
use mcp_k8s::pod::{pod_summary, restarts_in_range};

fn pod_with_restarts(counts: &[i32]) -> PodInfo {
    let statuses = counts
        .iter()
        .enumerate()
        .map(|(i, c)| ContainerStatusInfo {
            name: format!("c{i}"),
            restart_count: *c,
            ..Default::default()
        })
        .collect();
    PodInfo {
        status: Some(PodStatusInfo { container_statuses: Some(statuses), ..Default::default() }),
        ..Default::default()
    }
}

#[test]
fn restart_totals_within_i32_are_summed() {
    let pod = pod_with_restarts(&[3, 4, i32::MAX - 7]);
    assert!(restarts_in_range(&pod));
    assert_eq!(pod_summary(&pod).restart_count, i32::MAX);
    assert!(restarts_in_range(&PodInfo::default()));
}

#[test]
fn restart_totals_past_i32_are_refused() {
    assert!(!restarts_in_range(&pod_with_restarts(&[i32::MAX, 1])));
    assert!(!restarts_in_range(&pod_with_restarts(&[i32::MAX, 1, -5])));
}
