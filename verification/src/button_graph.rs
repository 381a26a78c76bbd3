//! The presses of a recorded session, sorted by button for drawing.

use crate::controller_type::ControllerType;
use crate::input::{Button, BUTTON_COUNT};
use crate::records::ControllerButtonEvent;
use vstd::prelude::*;

verus! {

/// Those of `events` that are presses of `button`, in their order.
pub open spec fn spec_presses_of(events: Seq<ControllerButtonEvent>, button: Button) -> Seq<
    ControllerButtonEvent,
>
    decreases events.len(),
{
    if events.len() == 0 {
        events
    } else if events.last().button == button {
        spec_presses_of(events.drop_last(), button).push(events.last())
    } else {
        spec_presses_of(events.drop_last(), button)
    }
}

/// The box that stands for one press: it reaches from the press to the
/// release, with its middle line at the press.
#[derive(Clone, Copy, Debug, PartialEq, Eq, Structural)]
pub struct BoxSpread {
    pub lower_whisker: u64,
    pub quartile1: u64,
    pub median: u64,
    pub quartile3: u64,
    pub upper_whisker: u64,
}

/// The box that stands for one press.
pub open spec fn spec_box_spread(event: ControllerButtonEvent) -> BoxSpread {
    BoxSpread {
        lower_whisker: event.press_time,
        quartile1: event.press_time,
        median: event.press_time,
        quartile3: event.release_time,
        upper_whisker: event.release_time,
    }
}

/// The box that stands for one press.
pub fn box_spread(event: &ControllerButtonEvent) -> (spread: BoxSpread)
    ensures
        spread == spec_box_spread(*event),
{
    BoxSpread {
        lower_whisker: event.press_time,
        quartile1: event.press_time,
        median: event.press_time,
        quartile3: event.release_time,
        upper_whisker: event.release_time,
    }
}

/// The presses of one session, sorted by button, and the maker under whose
/// names the buttons are shown.
pub struct ControllerButtonGraph {
    csv_data: Option<Vec<Vec<ControllerButtonEvent>>>,
    controller_type: ControllerType,
}

impl ControllerButtonGraph {
    /// Where presses are loaded, there is one list for each button.
    pub closed spec fn wf(&self) -> bool {
        match self.csv_data {
            Some(groups) => groups.len() == BUTTON_COUNT,
            None => true,
        }
    }

    /// Whether presses are loaded.
    pub closed spec fn spec_is_loaded(&self) -> bool {
        self.csv_data.is_some()
    }

    /// The presses of `button` that are loaded, in their order.
    pub closed spec fn spec_presses(&self, button: Button) -> Seq<ControllerButtonEvent> {
        match self.csv_data {
            Some(groups) => groups[button.spec_code() as int]@,
            None => Seq::<ControllerButtonEvent>::empty(),
        }
    }

    /// The maker under whose names the buttons are shown.
    pub closed spec fn spec_controller_type(&self) -> ControllerType {
        self.controller_type
    }

    /// The buttons with a code below `limit` of which a press is loaded, in
    /// the order of their codes.
    pub open spec fn spec_shown_below(&self, limit: nat) -> Seq<Button>
        decreases limit,
    {
        if limit == 0 {
            Seq::<Button>::empty()
        } else {
            let button = Button::spec_from_code((limit - 1) as u64);
            if self.spec_presses(button).len() > 0 {
                self.spec_shown_below((limit - 1) as nat).push(button)
            } else {
                self.spec_shown_below((limit - 1) as nat)
            }
        }
    }

    /// A graph with nothing loaded.
    pub fn new() -> (graph: ControllerButtonGraph)
        ensures
            graph.wf(),
            !graph.spec_is_loaded(),
            graph.spec_controller_type() == ControllerType::Default,
    {
        ControllerButtonGraph { csv_data: None, controller_type: ControllerType::Default }
    }

    #[verifier::when_used_as_spec(spec_is_loaded)]
    pub fn is_loaded(&self) -> (loaded: bool)
        ensures
            loaded == self.spec_is_loaded(),
    {
        self.csv_data.is_some()
    }

    #[verifier::when_used_as_spec(spec_controller_type)]
    pub fn controller_type(&self) -> (kind: ControllerType)
        ensures
            kind == self.spec_controller_type(),
    {
        self.controller_type
    }

    /// Shows the buttons under the names of another maker.
    pub fn set_controller_type(&mut self, kind: ControllerType)
        ensures
            final(self).spec_controller_type() == kind,
            final(self).wf() == old(self).wf(),
            final(self).spec_is_loaded() == old(self).spec_is_loaded(),
            forall|b: Button| final(self).spec_presses(b) == old(self).spec_presses(b),
    {
        self.controller_type = kind;
    }

    /// Loads the presses of a session: each goes to the list of its button,
    /// and within a list they keep their order. What was loaded before is
    /// gone.
    pub fn load(&mut self, events: &Vec<ControllerButtonEvent>)
        ensures
            final(self).wf(),
            final(self).spec_is_loaded(),
            final(self).spec_controller_type() == old(self).spec_controller_type(),
            forall|b: Button| #[trigger] final(self).spec_presses(b) == spec_presses_of(events@, b),
    {
        let mut groups: Vec<Vec<ControllerButtonEvent>> = Vec::new();
        let mut c: u64 = 0;
        while c < BUTTON_COUNT
            invariant
                0 <= c <= BUTTON_COUNT,
                groups.len() == c,
                forall|k: int| 0 <= k < c ==> (#[trigger] groups[k])@.len() == 0,
            decreases BUTTON_COUNT - c,
        {
            groups.push(Vec::new());
            c = c + 1;
        }
        let mut i: usize = 0;
        while i < events.len()
            invariant
                0 <= i <= events.len(),
                groups.len() == BUTTON_COUNT,
                forall|b: Button| #[trigger]
                    groups[b.spec_code() as int]@ == spec_presses_of(events@.take(i as int), b),
            decreases events.len() - i,
        {
            let event = events[i];
            let code = event.button.code();
            let ghost before = groups@;
            groups[code as usize].push(event);
            proof {
                assert(events@.take(i + 1).drop_last() =~= events@.take(i as int));
                assert(events@.take(i + 1).last() == event);
                assert forall|b: Button| #[trigger]
                    groups[b.spec_code() as int]@ == spec_presses_of(
                        events@.take(i + 1),
                        b,
                    ) by {
                    b.lemma_code_round_trip();
                    event.button.lemma_code_round_trip();
                    assert(before[b.spec_code() as int]@ == spec_presses_of(
                        events@.take(i as int),
                        b,
                    ));
                }
            }
            i = i + 1;
        }
        assert(events@.take(events.len() as int) =~= events@);
        self.csv_data = Some(groups);
    }

    /// The presses of `button` that are loaded, in their order.
    pub fn presses(&self, button: Button) -> (list: Vec<ControllerButtonEvent>)
        requires
            self.wf(),
        ensures
            list@ == self.spec_presses(button),
    {
        let mut list: Vec<ControllerButtonEvent> = Vec::new();
        match &self.csv_data {
            Some(groups) => {
                let group = &groups[button.code() as usize];
                let mut i: usize = 0;
                while i < group.len()
                    invariant
                        0 <= i <= group.len(),
                        list@ == group@.take(i as int),
                    decreases group.len() - i,
                {
                    list.push(group[i]);
                    assert(list@ =~= group@.take(i + 1));
                    i = i + 1;
                }
                assert(group@.take(group.len() as int) =~= group@);
            },
            None => {},
        }
        list
    }

    /// The buttons of which a press is loaded, in the order of their codes:
    /// the rows of the drawing, from the first up.
    pub fn shown_buttons(&self) -> (buttons: Vec<Button>)
        requires
            self.wf(),
        ensures
            buttons@ == self.spec_shown_below(BUTTON_COUNT as nat),
    {
        let mut buttons: Vec<Button> = Vec::new();
        let mut c: u64 = 0;
        while c < BUTTON_COUNT
            invariant
                0 <= c <= BUTTON_COUNT,
                self.wf(),
                buttons@ == self.spec_shown_below(c as nat),
            decreases BUTTON_COUNT - c,
        {
            let button = Button::from_code(c);
            let shown = match &self.csv_data {
                Some(groups) => groups[c as usize].len() > 0,
                None => false,
            };
            if shown {
                buttons.push(button);
            }
            c = c + 1;
        }
        buttons
    }

    /// The name under which `button` is shown.
    pub fn button_label(&self, button: Button) -> (name: String)
        ensures
            name@ == self.spec_controller_type().spec_get_button_name(button),
    {
        self.controller_type.get_button_name(button)
    }
}

impl Default for ControllerButtonGraph {
    fn default() -> (graph: ControllerButtonGraph)
        ensures
            graph.wf(),
            !graph.spec_is_loaded(),
            graph.spec_controller_type() == ControllerType::Default,
    {
        ControllerButtonGraph::new()
    }
}

} // verus!
