use ftnl_desktop::parity_contract_v1::{
    check_parity_answers, verify_required_parity_capabilities, AppCapability, AppPlatformAdapter,
    AppSurface, CROSS_PLATFORM_PARITY_CONTRACT_VERSION, FLUTTER_COUNTERPART,
    REQUIRED_PARITY_CAPABILITIES,
};

struct Adapter {
    lacking: Vec<AppCapability>,
}

impl AppPlatformAdapter for Adapter {
    fn surface(&self) -> AppSurface {
        AppSurface::RustDesktop
    }

    fn supports(&self, capability: AppCapability) -> bool {
        !self.lacking.contains(&capability)
    }
}

#[test]
fn full_platforms_keep_parity() {
    let adapter = Adapter { lacking: vec![] };
    assert_eq!(adapter.surface(), AppSurface::RustDesktop);
    assert_eq!(verify_required_parity_capabilities(&adapter), Ok(()));
}

#[test]
fn missing_capabilities_are_listed_in_order() {
    let adapter = Adapter {
        lacking: vec![AppCapability::Telemetry, AppCapability::PeerDiscovery],
    };
    assert_eq!(
        verify_required_parity_capabilities(&adapter),
        Err(vec![AppCapability::PeerDiscovery, AppCapability::Telemetry])
    );
    let mut answers = [true; 16];
    assert_eq!(check_parity_answers(&answers), Ok(()));
    answers[0] = false;
    answers[15] = false;
    assert_eq!(
        check_parity_answers(&answers),
        Err(vec![
            AppCapability::Authentication,
            AppCapability::ApplicationUpdates
        ])
    );
}

#[test]
fn the_contract_names_its_counterpart() {
    assert_eq!(CROSS_PLATFORM_PARITY_CONTRACT_VERSION, 1);
    assert_eq!(FLUTTER_COUNTERPART, "file-tunnel/ftnl-flutter");
    assert_eq!(REQUIRED_PARITY_CAPABILITIES.len(), 16);
}
