//! The stick moves of a recorded session, and the stretch of them that is
//! drawn.

use crate::records::ControllerStickEvent;
use crate::sticks::ControllerStickState;
use vstd::prelude::*;

verus! {

/// The moves of a session, taken apart for drawing: where the left stick
/// stood, where the right stick stood, and when.
#[derive(Clone, Debug, PartialEq, Eq)]
pub struct ControllerStickData {
    pub left_values: Vec<ControllerStickState>,
    pub right_values: Vec<ControllerStickState>,
    pub timestamps: Vec<u64>,
}

/// Where the left stick stood in a record.
pub open spec fn spec_left_of(event: ControllerStickEvent) -> ControllerStickState {
    ControllerStickState { x: event.left_x, y: event.left_y }
}

/// Where the right stick stood in a record.
pub open spec fn spec_right_of(event: ControllerStickEvent) -> ControllerStickState {
    ControllerStickState { x: event.right_x, y: event.right_y }
}

impl ControllerStickData {
    /// The three lists hold `events` taken apart, record by record.
    pub open spec fn spec_holds(&self, events: Seq<ControllerStickEvent>) -> bool {
        &&& self.left_values@ == Seq::new(events.len(), |i: int| spec_left_of(events[i]))
        &&& self.right_values@ == Seq::new(events.len(), |i: int| spec_right_of(events[i]))
        &&& self.timestamps@ == Seq::new(events.len(), |i: int| events[i].time)
    }

    /// The three lists are of one length.
    pub open spec fn wf(&self) -> bool {
        self.left_values@.len() == self.timestamps@.len() && self.right_values@.len()
            == self.timestamps@.len()
    }

    /// Takes the records of a session apart.
    pub fn from_events(events: &Vec<ControllerStickEvent>) -> (data: ControllerStickData)
        ensures
            data.spec_holds(events@),
            data.wf(),
    {
        let mut left_values: Vec<ControllerStickState> = Vec::new();
        let mut right_values: Vec<ControllerStickState> = Vec::new();
        let mut timestamps: Vec<u64> = Vec::new();
        let mut i: usize = 0;
        while i < events.len()
            invariant
                0 <= i <= events.len(),
                left_values@ == Seq::new(i as nat, |k: int| spec_left_of(events[k])),
                right_values@ == Seq::new(i as nat, |k: int| spec_right_of(events[k])),
                timestamps@ == Seq::new(i as nat, |k: int| events[k].time),
            decreases events.len() - i,
        {
            let event = events[i];
            left_values.push(ControllerStickState { x: event.left_x, y: event.left_y });
            right_values.push(ControllerStickState { x: event.right_x, y: event.right_y });
            timestamps.push(event.time);
            assert(left_values@ =~= Seq::new((i + 1) as nat, |k: int| spec_left_of(events[k])));
            assert(right_values@ =~= Seq::new((i + 1) as nat, |k: int| spec_right_of(events[k])));
            assert(timestamps@ =~= Seq::new((i + 1) as nat, |k: int| events[k].time));
            i = i + 1;
        }
        ControllerStickData { left_values, right_values, timestamps }
    }
}

/// The stretch of a session that is drawn.
#[derive(Clone, Copy, Debug, PartialEq, Eq, Structural)]
pub struct StickWindow {
    /// The first record that is drawn.
    pub from: usize,
    /// The record after the last that is drawn.
    pub to: usize,
    /// The record whose time stands for the beginning of the stretch, if
    /// there is one.
    pub first_label: Option<usize>,
    /// The record whose time stands for the end of the stretch, if there is
    /// one.
    pub last_label: Option<usize>,
}

/// The smaller of two numbers.
pub open spec fn spec_min(a: int, b: int) -> int {
    if a <= b {
        a
    } else {
        b
    }
}

/// The stretch that is drawn of `len` records when the slider stands at
/// `slider` and `offset` records are asked for: half of them before the
/// slider and half after, as far as there are records. The times that stand
/// for the stretch are those of its first record and of the record at its
/// end, or of the last record where the stretch reaches the end; there are
/// none where the stretch begins behind the last record.
pub open spec fn spec_window(slider: usize, offset: u8, len: usize) -> StickWindow {
    let half = offset as int / 2;
    let left = if slider - half < 0 {
        0
    } else {
        slider - half
    };
    let right = if slider + half > usize::MAX {
        usize::MAX as int
    } else {
        slider + half
    };
    StickWindow {
        from: spec_min(left, len as int) as usize,
        to: spec_min(right, len as int) as usize,
        first_label: if left < len {
            Some(left as usize)
        } else {
            None
        },
        last_label: if left < len {
            Some(spec_min(right, len - 1) as usize)
        } else {
            None
        },
    }
}

/// The stretch that is drawn of `len` records.
pub fn window(slider: usize, offset: u8, len: usize) -> (w: StickWindow)
    ensures
        w == spec_window(slider, offset, len),
        w.from <= w.to <= len,
        w.first_label.is_some() ==> w.first_label.unwrap() < len,
        w.last_label.is_some() ==> w.last_label.unwrap() < len,
{
    let half: usize = (offset / 2) as usize;
    let left: usize = if slider < half {
        0
    } else {
        slider - half
    };
    let right: usize = if slider > usize::MAX - half {
        usize::MAX
    } else {
        slider + half
    };
    let from: usize = if left <= len {
        left
    } else {
        len
    };
    let to: usize = if right <= len {
        right
    } else {
        len
    };
    if left < len {
        let last: usize = if right <= len - 1 {
            right
        } else {
            len - 1
        };
        StickWindow { from, to, first_label: Some(left), last_label: Some(last) }
    } else {
        StickWindow { from, to, first_label: None, last_label: None }
    }
}

/// The stick moves of one session and how much of them is drawn.
pub struct ControllerStickGraph {
    csv_data: Option<ControllerStickData>,
    data_offset: u8,
    show_lines: bool,
    slider_timestamp: usize,
}

/// How many records are drawn at once until the user says otherwise.
pub const DEFAULT_DATA_OFFSET: u8 = 50u8;

impl ControllerStickGraph {
    /// What is loaded is of one length throughout.
    pub closed spec fn wf(&self) -> bool {
        match self.csv_data {
            Some(data) => data.wf(),
            None => true,
        }
    }

    /// Whether moves are loaded.
    pub closed spec fn spec_is_loaded(&self) -> bool {
        self.csv_data.is_some()
    }

    /// How many records are loaded.
    pub closed spec fn spec_len(&self) -> nat {
        match self.csv_data {
            Some(data) => data.timestamps@.len(),
            None => 0,
        }
    }

    /// Whether what is loaded is `events` taken apart.
    pub closed spec fn spec_holds(&self, events: Seq<ControllerStickEvent>) -> bool {
        match self.csv_data {
            Some(data) => data.spec_holds(events),
            None => false,
        }
    }

    /// How many records are drawn at once.
    pub closed spec fn spec_data_offset(&self) -> u8 {
        self.data_offset
    }

    /// Whether the records are joined by lines.
    pub closed spec fn spec_show_lines(&self) -> bool {
        self.show_lines
    }

    /// Where the slider stands.
    pub closed spec fn spec_slider(&self) -> usize {
        self.slider_timestamp
    }

    /// A graph with nothing loaded: fifty records at once, joined by lines,
    /// the slider at the beginning.
    pub fn new() -> (graph: ControllerStickGraph)
        ensures
            graph.wf(),
            !graph.spec_is_loaded(),
            graph.spec_len() == 0,
            graph.spec_data_offset() == DEFAULT_DATA_OFFSET,
            graph.spec_show_lines(),
            graph.spec_slider() == 0,
    {
        ControllerStickGraph {
            csv_data: None,
            data_offset: DEFAULT_DATA_OFFSET,
            show_lines: true,
            slider_timestamp: 0,
        }
    }

    /// Loads the moves of a session. What was loaded before is gone; how
    /// much is drawn, and where the slider stands, stays.
    pub fn load(&mut self, events: &Vec<ControllerStickEvent>)
        ensures
            final(self).wf(),
            final(self).spec_is_loaded(),
            final(self).spec_holds(events@),
            final(self).spec_len() == events@.len(),
            final(self).spec_data_offset() == old(self).spec_data_offset(),
            final(self).spec_show_lines() == old(self).spec_show_lines(),
            final(self).spec_slider() == old(self).spec_slider(),
    {
        self.csv_data = Some(ControllerStickData::from_events(events));
    }

    #[verifier::when_used_as_spec(spec_is_loaded)]
    pub fn is_loaded(&self) -> (loaded: bool)
        ensures
            loaded == self.spec_is_loaded(),
    {
        self.csv_data.is_some()
    }

    /// What is loaded, if anything is.
    pub fn data(&self) -> (data: Option<&ControllerStickData>)
        ensures
            data.is_some() == self.spec_is_loaded(),
            forall|events: Seq<ControllerStickEvent>|
                self.spec_holds(events) ==> data.is_some() && data.unwrap().spec_holds(events),
    {
        self.csv_data.as_ref()
    }

    /// How many records are loaded.
    pub fn len(&self) -> (n: usize)
        ensures
            n == self.spec_len(),
    {
        match &self.csv_data {
            Some(data) => data.timestamps.len(),
            None => 0,
        }
    }

    #[verifier::when_used_as_spec(spec_data_offset)]
    pub fn data_offset(&self) -> (offset: u8)
        ensures
            offset == self.spec_data_offset(),
    {
        self.data_offset
    }

    #[verifier::when_used_as_spec(spec_show_lines)]
    pub fn show_lines(&self) -> (lines: bool)
        ensures
            lines == self.spec_show_lines(),
    {
        self.show_lines
    }

    /// Where the slider stands.
    pub fn slider_timestamp(&self) -> (slider: usize)
        ensures
            slider == self.spec_slider(),
    {
        self.slider_timestamp
    }

    /// Sets how many records are drawn at once.
    pub fn set_data_offset(&mut self, offset: u8)
        ensures
            final(self).spec_data_offset() == offset,
            final(self).wf() == old(self).wf(),
            final(self).spec_is_loaded() == old(self).spec_is_loaded(),
            final(self).spec_len() == old(self).spec_len(),
            final(self).spec_show_lines() == old(self).spec_show_lines(),
            final(self).spec_slider() == old(self).spec_slider(),
    {
        self.data_offset = offset;
    }

    /// Sets whether the records are joined by lines.
    pub fn set_show_lines(&mut self, lines: bool)
        ensures
            final(self).spec_show_lines() == lines,
            final(self).wf() == old(self).wf(),
            final(self).spec_is_loaded() == old(self).spec_is_loaded(),
            final(self).spec_len() == old(self).spec_len(),
            final(self).spec_data_offset() == old(self).spec_data_offset(),
            final(self).spec_slider() == old(self).spec_slider(),
    {
        self.show_lines = lines;
    }

    /// Moves the slider to `slider`, or to the end of what is loaded where
    /// `slider` lies behind it.
    pub fn set_slider_timestamp(&mut self, slider: usize)
        ensures
            final(self).spec_slider() == spec_min(slider as int, old(self).spec_len() as int),
            final(self).wf() == old(self).wf(),
            final(self).spec_is_loaded() == old(self).spec_is_loaded(),
            final(self).spec_len() == old(self).spec_len(),
            final(self).spec_data_offset() == old(self).spec_data_offset(),
            final(self).spec_show_lines() == old(self).spec_show_lines(),
    {
        let len = self.len();
        self.slider_timestamp = if slider <= len {
            slider
        } else {
            len
        };
    }

    /// The stretch that is drawn.
    pub fn window(&self) -> (w: StickWindow)
        ensures
            w == spec_window(self.spec_slider(), self.spec_data_offset(), self.spec_len() as usize),
            w.from <= w.to <= self.spec_len(),
    {
        window(self.slider_timestamp, self.data_offset, self.len())
    }
}

impl Default for ControllerStickGraph {
    fn default() -> (graph: ControllerStickGraph)
        ensures
            graph.wf(),
            !graph.spec_is_loaded(),
            graph.spec_data_offset() == DEFAULT_DATA_OFFSET,
            graph.spec_show_lines(),
            graph.spec_slider() == 0,
    {
        ControllerStickGraph::new()
    }
}

} // verus!
