//! Choosing the window's size and the operations that bring it about.

use vstd::prelude::*;
use crate::action::{Notice, WindowAction};
use crate::layout::{
    get_height, get_width, height_of, width_of, FALLBACK_WINDOW_HEIGHT, FALLBACK_WINDOW_WIDTH,
    STUDYING_WINDOW_HEIGHT_SMALL,
};

verus! {

/// What came back when the window was asked for its current monitor.
#[derive(Clone, Copy, Debug, PartialEq, Eq, Structural)]
pub enum MonitorQuery {
    /// The window is on a monitor that is this many pixels wide.
    Found { width: u32 },
    /// The window is on no monitor.
    Missing,
    /// The question could not be answered.
    Failed,
}

/// How a sizing request proceeds.
#[derive(Debug, PartialEq, Eq)]
pub enum SizingStep {
    /// The monitor has to be asked first; hand its answer to [`size_for_monitor`].
    AskMonitor,
    /// Perform these operations in order.
    Apply { actions: Vec<WindowAction> },
}

impl SizingStep {
    /// Whether this is the right way to proceed for the given flags: ask the
    /// monitor while studying, size the setup panel otherwise.
    pub open spec fn answers(
        self,
        is_studying: bool,
        study_list_showing: bool,
        programmes_showing: bool,
    ) -> bool {
        if is_studying {
            self is AskMonitor
        } else {
            self is Apply && self->actions@ == setup_actions(
                study_list_showing,
                programmes_showing,
            )
        }
    }
}

/// The operations that size the setup panel.
pub open spec fn setup_actions(
    study_list_showing: bool,
    programmes_showing: bool,
) -> Seq<WindowAction> {
    seq![
        WindowAction::Resize {
            width: width_of(false, programmes_showing),
            height: height_of(false, study_list_showing, programmes_showing),
        },
        WindowAction::Shadow { enabled: true },
    ]
}

/// The operations that size the studying bar, given the monitor's answer.
///
/// On a known monitor the bar moves to the corner and spans the monitor's
/// width. Otherwise a notice is printed and the fallback size is used. The
/// shadow goes off in every case.
pub open spec fn studying_actions(monitor: MonitorQuery) -> Seq<WindowAction> {
    match monitor {
        MonitorQuery::Found { width } => seq![
            WindowAction::MoveToOrigin,
            WindowAction::Resize { width, height: STUDYING_WINDOW_HEIGHT_SMALL },
            WindowAction::Shadow { enabled: false },
        ],
        MonitorQuery::Missing => seq![
            WindowAction::Report { notice: Notice::NoMonitor },
            WindowAction::Resize { width: FALLBACK_WINDOW_WIDTH, height: FALLBACK_WINDOW_HEIGHT },
            WindowAction::Shadow { enabled: false },
        ],
        MonitorQuery::Failed => seq![
            WindowAction::Report { notice: Notice::QueryFailed },
            WindowAction::Resize { width: FALLBACK_WINDOW_WIDTH, height: FALLBACK_WINDOW_HEIGHT },
            WindowAction::Shadow { enabled: false },
        ],
    }
}

/// Sizes the setup panel for the sections that are open.
pub fn size_for_setup(
    study_list_showing: bool,
    programmes_showing: bool,
) -> (actions: Vec<WindowAction>)
    ensures
        actions@ == setup_actions(study_list_showing, programmes_showing),
{
    let width: u32 = get_width(false, programmes_showing);
    let height: u32 = get_height(false, study_list_showing, programmes_showing);
    let mut actions: Vec<WindowAction> = Vec::new();
    actions.push(WindowAction::Resize { width, height });
    actions.push(WindowAction::Shadow { enabled: true });
    assert(actions@ =~= setup_actions(study_list_showing, programmes_showing));
    actions
}

/// Sizes the studying bar once the monitor has answered.
pub fn size_for_monitor(monitor: MonitorQuery) -> (actions: Vec<WindowAction>)
    ensures
        actions@ == studying_actions(monitor),
{
    let mut actions: Vec<WindowAction> = Vec::new();
    match monitor {
        MonitorQuery::Found { width } => {
            actions.push(WindowAction::MoveToOrigin);
            actions.push(WindowAction::Resize { width, height: STUDYING_WINDOW_HEIGHT_SMALL });
        },
        MonitorQuery::Missing => {
            actions.push(WindowAction::Report { notice: Notice::NoMonitor });
            actions.push(
                WindowAction::Resize {
                    width: FALLBACK_WINDOW_WIDTH,
                    height: FALLBACK_WINDOW_HEIGHT,
                },
            );
        },
        MonitorQuery::Failed => {
            actions.push(WindowAction::Report { notice: Notice::QueryFailed });
            actions.push(
                WindowAction::Resize {
                    width: FALLBACK_WINDOW_WIDTH,
                    height: FALLBACK_WINDOW_HEIGHT,
                },
            );
        },
    }
    actions.push(WindowAction::Shadow { enabled: false });
    assert(actions@ =~= studying_actions(monitor));
    actions
}

/// Starts a sizing request.
///
/// While studying, the size depends on the monitor, so the monitor is asked
/// first and the open sections play no part. Otherwise the operations follow
/// from the flags alone.
pub fn set_window_size(
    is_studying: bool,
    study_list_showing: bool,
    programmes_showing: bool,
) -> (step: SizingStep)
    ensures
        step.answers(is_studying, study_list_showing, programmes_showing),
{
    if is_studying {
        SizingStep::AskMonitor
    } else {
        SizingStep::Apply { actions: size_for_setup(study_list_showing, programmes_showing) }
    }
}

/// The setup panel takes one of three sizes, and the wide panel is always tall.
pub proof fn lemma_setup_sizes(study_list_showing: bool, programmes_showing: bool)
    ensures
        ({
            let w = width_of(false, programmes_showing);
            let h = height_of(false, study_list_showing, programmes_showing);
            &&& (w == 350 && h == 140) || (w == 350 && h == 500) || (w == 720 && h == 500)
            &&& w == 720 <==> programmes_showing
            &&& h == 500 <==> study_list_showing || programmes_showing
        }),
{
}

/// Sizing the setup panel is a resize followed by switching the shadow on.
pub proof fn lemma_setup_ends_with_shadow_on(study_list_showing: bool, programmes_showing: bool)
    ensures
        ({
            let actions = setup_actions(study_list_showing, programmes_showing);
            &&& actions.len() == 2
            &&& actions[0] is Resize
            &&& actions[1] == (WindowAction::Shadow { enabled: true })
        }),
{
}

/// Sizing the studying bar always resizes the window and then switches the
/// shadow off, whatever the monitor answered. The bar spans a known monitor
/// at the small height; the first operation is a move to the corner exactly
/// when the monitor is known, and a notice otherwise.
pub proof fn lemma_studying_ends_with_shadow_off(monitor: MonitorQuery)
    ensures
        ({
            let actions = studying_actions(monitor);
            &&& actions.len() == 3
            &&& actions[0] is MoveToOrigin <==> monitor is Found
            &&& actions[0] is Report <==> !(monitor is Found)
            &&& actions[1] is Resize
            &&& monitor matches MonitorQuery::Found { width } ==> actions[1] == (WindowAction::Resize {
                width,
                height: 18,
            })
            &&& !(monitor is Found) ==> actions[1] == (WindowAction::Resize {
                width: 100,
                height: 100,
            })
            &&& actions[2] == (WindowAction::Shadow { enabled: false })
        }),
{
}

} // verus!
