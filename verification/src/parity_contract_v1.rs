//! Shared file-transfer feature-parity contract with `file-tunnel/ftnl-flutter`.
//! Native transport, filesystem, lifecycle, and notification behavior belongs only in
//! [`AppPlatformAdapter`].
use vstd::prelude::*;

verus! {

pub const CROSS_PLATFORM_PARITY_CONTRACT_VERSION: u32 = 1;

pub const FLUTTER_COUNTERPART: &'static str = "file-tunnel/ftnl-flutter";

#[derive(Clone, Copy, Debug, Eq, Hash, PartialEq, Structural)]
pub enum AppSurface {
    Mobile,
    FlutterDesktop,
    RustDesktop,
}

#[derive(Clone, Copy, Debug, Eq, Hash, PartialEq, Structural)]
pub enum AppCapability {
    Authentication,
    PeerDiscovery,
    EncryptedTransfer,
    SendFiles,
    ReceiveFiles,
    TransferResume,
    CollisionHandling,
    FilePicker,
    ShareIntent,
    DeepLinks,
    BackgroundTransfer,
    Notifications,
    OfflineQueue,
    Telemetry,
    Accessibility,
    ApplicationUpdates,
}

pub const REQUIRED_PARITY_CAPABILITIES: [AppCapability; 16] = [
    AppCapability::Authentication,
    AppCapability::PeerDiscovery,
    AppCapability::EncryptedTransfer,
    AppCapability::SendFiles,
    AppCapability::ReceiveFiles,
    AppCapability::TransferResume,
    AppCapability::CollisionHandling,
    AppCapability::FilePicker,
    AppCapability::ShareIntent,
    AppCapability::DeepLinks,
    AppCapability::BackgroundTransfer,
    AppCapability::Notifications,
    AppCapability::OfflineQueue,
    AppCapability::Telemetry,
    AppCapability::Accessibility,
    AppCapability::ApplicationUpdates,
];

/// What a platform offers the app.
pub trait AppPlatformAdapter {
    fn surface(&self) -> AppSurface;

    fn supports(&self, capability: AppCapability) -> bool;
}

/// The first `n` required capabilities whose answer is no, in their order.
pub open spec fn unsupported(answers: Seq<bool>, n: nat) -> Seq<AppCapability>
    decreases n,
{
    if n == 0 {
        Seq::empty()
    } else {
        let before = unsupported(answers, (n - 1) as nat);
        if answers[n - 1] {
            before
        } else {
            before.push(REQUIRED_PARITY_CAPABILITIES@[n - 1])
        }
    }
}

/// What a platform with these answers lacks.
pub open spec fn parity_outcome(answers: Seq<bool>) -> Result<(), Seq<AppCapability>> {
    let missing = unsupported(answers, 16);
    if missing.len() == 0 {
        Ok(())
    } else {
        Err(missing)
    }
}

/// The view of a parity check's result.
pub open spec fn parity_result(res: Result<(), Vec<AppCapability>>) -> Result<
    (),
    Seq<AppCapability>,
> {
    match res {
        Ok(()) => Ok(()),
        Err(missing) => Err(missing@),
    }
}

/// The answers are those that the adapter gives for the required capabilities, in their order.
pub open spec fn answers_of<A: AppPlatformAdapter>(adapter: &A, answers: Seq<bool>) -> bool {
    &&& answers.len() == 16
    &&& forall|i: int|
        0 <= i < 16 ==> call_ensures(
            A::supports,
            (adapter, REQUIRED_PARITY_CAPABILITIES@[i]),
            #[trigger] answers[i],
        )
}

/// A platform keeps parity exactly where every answer is yes.
pub proof fn parity_needs_every_capability(answers: Seq<bool>)
    requires
        answers.len() == 16,
    ensures
        parity_outcome(answers) is Ok <==> forall|i: int| 0 <= i < 16 ==> #[trigger] answers[i],
{
    lemma_unsupported(answers, 16);
}

/// What a platform lacks are the capabilities whose answer is no, in the order in which they are
/// required.
pub proof fn missing_capabilities_are_those_denied(answers: Seq<bool>, missing: Seq<AppCapability>)
    requires
        answers.len() == 16,
        parity_outcome(answers) == Err::<(), _>(missing),
    ensures
        missing.len() > 0,
        exists|at: Seq<int>| #[trigger] denied_at(answers, missing, at),
{
    lemma_denied(answers, 16);
    assert(denied_at(answers, missing, denied_indices(answers, 16)));
}

/// The missing capabilities are the required ones at the ascending indices `at`, which are those of
/// all answers that are no.
pub open spec fn denied_at(
    answers: Seq<bool>,
    missing: Seq<AppCapability>,
    at: Seq<int>,
) -> bool {
    &&& missing.len() == at.len()
    &&& forall|k: int|
        0 <= k < at.len() ==> 0 <= #[trigger] at[k] < 16 && missing[k]
            == REQUIRED_PARITY_CAPABILITIES@[at[k]]
    &&& forall|j: int, k: int| 0 <= j < k < at.len() ==> #[trigger] at[j] < #[trigger] at[k]
    &&& forall|i: int| 0 <= i < 16 ==> (#[trigger] at.contains(i) <==> !answers[i])
}

spec fn denied_indices(answers: Seq<bool>, n: nat) -> Seq<int>
    decreases n,
{
    if n == 0 {
        Seq::empty()
    } else if answers[n - 1] {
        denied_indices(answers, (n - 1) as nat)
    } else {
        denied_indices(answers, (n - 1) as nat).push(n - 1)
    }
}

proof fn lemma_denied(answers: Seq<bool>, n: nat)
    requires
        n <= 16,
    ensures
        ({
            let at = denied_indices(answers, n);
            let missing = unsupported(answers, n);
            &&& missing.len() == at.len()
            &&& forall|k: int|
                0 <= k < at.len() ==> 0 <= #[trigger] at[k] < n && missing[k]
                    == REQUIRED_PARITY_CAPABILITIES@[at[k]]
            &&& forall|j: int, k: int|
                0 <= j < k < at.len() ==> #[trigger] at[j] < #[trigger] at[k]
            &&& forall|i: int| 0 <= i < n ==> (#[trigger] at.contains(i) <==> !answers[i])
        }),
    decreases n,
{
    if n > 0 {
        lemma_denied(answers, (n - 1) as nat);
        let before = denied_indices(answers, (n - 1) as nat);
        let at = denied_indices(answers, n);
        assert forall|i: int| 0 <= i < n implies (#[trigger] at.contains(i) <==> !answers[i]) by {
            if i < n - 1 {
                if before.contains(i) {
                    let k = choose|k: int| 0 <= k < before.len() && before[k] == i;
                    assert(at[k] == i);
                }
                if at.contains(i) {
                    let k = choose|k: int| 0 <= k < at.len() && at[k] == i;
                    assert(before[k] == i);
                }
                assert(before.contains(i) <==> !answers[i]);
            } else if !answers[i] {
                assert(at[at.len() - 1] == i);
            } else if at.contains(i) {
                let k = choose|k: int| 0 <= k < at.len() && at[k] == i;
                assert(before[k] < n - 1);
            }
        }
    }
}

/// The answers that decide are those of the adapter, one for each required capability.
pub proof fn the_adapter_answers_for_each_capability<A: AppPlatformAdapter>(
    adapter: &A,
    answers: Seq<bool>,
    i: int,
)
    requires
        answers_of(adapter, answers),
        0 <= i < 16,
    ensures
        answers.len() == 16,
        call_ensures(A::supports, (adapter, REQUIRED_PARITY_CAPABILITIES@[i]), answers[i]),
{
}

/// Results are seen as they are.
pub proof fn parity_results_are_seen_as_they_are(res: Result<(), Vec<AppCapability>>)
    ensures
        res is Ok ==> parity_result(res) is Ok,
        res matches Err(missing) ==> parity_result(res) == Err::<(), _>(missing@),
{
}

/// Every capability is required, each once and in its place.
pub proof fn every_capability_is_required()
    ensures
        REQUIRED_PARITY_CAPABILITIES@ == seq![
            AppCapability::Authentication,
            AppCapability::PeerDiscovery,
            AppCapability::EncryptedTransfer,
            AppCapability::SendFiles,
            AppCapability::ReceiveFiles,
            AppCapability::TransferResume,
            AppCapability::CollisionHandling,
            AppCapability::FilePicker,
            AppCapability::ShareIntent,
            AppCapability::DeepLinks,
            AppCapability::BackgroundTransfer,
            AppCapability::Notifications,
            AppCapability::OfflineQueue,
            AppCapability::Telemetry,
            AppCapability::Accessibility,
            AppCapability::ApplicationUpdates,
        ],
{
    assert(REQUIRED_PARITY_CAPABILITIES@ =~= seq![
        AppCapability::Authentication,
        AppCapability::PeerDiscovery,
        AppCapability::EncryptedTransfer,
        AppCapability::SendFiles,
        AppCapability::ReceiveFiles,
        AppCapability::TransferResume,
        AppCapability::CollisionHandling,
        AppCapability::FilePicker,
        AppCapability::ShareIntent,
        AppCapability::DeepLinks,
        AppCapability::BackgroundTransfer,
        AppCapability::Notifications,
        AppCapability::OfflineQueue,
        AppCapability::Telemetry,
        AppCapability::Accessibility,
        AppCapability::ApplicationUpdates,
    ]);
}

proof fn lemma_unsupported(answers: Seq<bool>, n: nat)
    requires
        n <= answers.len(),
    ensures
        unsupported(answers, n).len() == 0 <==> forall|i: int| 0 <= i < n ==> #[trigger] answers[i],
    decreases n,
{
    if n > 0 {
        lemma_unsupported(answers, (n - 1) as nat);
        if unsupported(answers, n).len() == 0 {
            assert(answers[n - 1]);
        }
    }
}

/// What a platform with these answers lacks of the required capabilities.
pub fn check_parity_answers(answers: &[bool; 16]) -> (res: Result<(), Vec<AppCapability>>)
    ensures
        parity_result(res) == parity_outcome(answers@),
{
    let mut missing: Vec<AppCapability> = Vec::new();
    let mut i: usize = 0;
    while i < 16
        invariant
            i <= 16,
            missing@ == unsupported(answers@, i as nat),
        decreases 16 - i,
    {
        if !answers[i] {
            missing.push(REQUIRED_PARITY_CAPABILITIES[i]);
        }
        i += 1;
    }
    if missing.len() == 0 {
        Ok(())
    } else {
        Err(missing)
    }
}

/// Whether a platform offers every required capability, and which it lacks.
pub fn verify_required_parity_capabilities<A: AppPlatformAdapter>(adapter: &A) -> (res: Result<
    (),
    Vec<AppCapability>,
>)
    ensures
        exists|answers: Seq<bool>| #[trigger]
            answers_of(adapter, answers) && parity_result(res) == parity_outcome(answers),
{
    let mut answers = [false; 16];
    let mut i: usize = 0;
    while i < 16
        invariant
            i <= 16,
            forall|j: int|
                0 <= j < i ==> call_ensures(
                    A::supports,
                    (adapter, REQUIRED_PARITY_CAPABILITIES@[j]),
                    #[trigger] answers@[j],
                ),
        decreases 16 - i,
    {
        answers[i] = adapter.supports(REQUIRED_PARITY_CAPABILITIES[i]);
        i += 1;
    }
    assert(answers_of(adapter, answers@));
    check_parity_answers(&answers)
}

} // verus!
