use vstd::prelude::*;

verus! {

#[verifier::external_type_specification]
#[verifier::external_body]
pub struct ExInstant(std::time::Instant);

/// Relies on std::time::Instant::now: an opaque monotonic timestamp.
/// Nothing is assumed of its value.
pub assume_specification[ std::time::Instant::now ]() -> std::time::Instant;

/// Relies on std::time::Instant::elapsed: the time since this instant.
/// Nothing is assumed of its value.
pub assume_specification[ std::time::Instant::elapsed ](
    i: &std::time::Instant,
) -> std::time::Duration;

/// Relies on std::time::Duration::as_nanos: the duration in whole
/// nanoseconds. Nothing is assumed of its value.
pub assume_specification[ std::time::Duration::as_nanos ](d: &std::time::Duration) -> u128;

/// One named pipeline step and how long it took, in nanoseconds.
#[derive(Debug, Clone)]
pub struct StepTiming {
    /// Name of the pipeline step.
    pub name: String,
    /// Wall-clock duration of the step, in nanoseconds.
    pub duration_ns: u64,
}

/// The ordered record of the pipeline steps that have run, with the
/// wall-clock duration of each.
#[derive(Debug, Default)]
pub struct PipelineTimings {
    steps: Vec<StepTiming>,
}

impl View for PipelineTimings {
    type V = Seq<(Seq<char>, u64)>;

    closed spec fn view(&self) -> Seq<(Seq<char>, u64)> {
        self.steps@.map(|i: int, s: StepTiming| (s.name@, s.duration_ns))
    }
}

/// The total of all recorded durations, in nanoseconds.
pub open spec fn total_ns(s: Seq<(Seq<char>, u64)>) -> int
    decreases s.len(),
{
    if s.len() == 0 {
        0
    } else {
        total_ns(s.drop_last()) + s.last().1
    }
}

/// Whether some recorded step bears the given name.
pub open spec fn has_step(s: Seq<(Seq<char>, u64)>, name: Seq<char>) -> bool {
    exists|i: int| 0 <= i < s.len() && s[i].0 == name
}

/// The total of the durations recorded under the given name, in nanoseconds.
pub open spec fn step_total_ns(s: Seq<(Seq<char>, u64)>, name: Seq<char>) -> int
    decreases s.len(),
{
    if s.len() == 0 {
        0
    } else {
        step_total_ns(s.drop_last(), name) + if s.last().0 == name {
            s.last().1 as int
        } else {
            0
        }
    }
}

impl PipelineTimings {
    /// An empty record.
    pub fn new() -> (r: Self)
        ensures
            r@ == Seq::<(Seq<char>, u64)>::empty(),
    {
        let r = PipelineTimings { steps: Vec::new() };
        proof {
            assert(r@ =~= Seq::<(Seq<char>, u64)>::empty());
        }
        r
    }

    /// Appends one step to the record.
    pub fn add_step(&mut self, name: String, duration_ns: u64)
        ensures
            final(self)@ == old(self)@.push((name@, duration_ns)),
    {
        let ghost prev = self@;
        let ghost name_view = name@;
        self.steps.push(StepTiming { name, duration_ns });
        proof {
            assert(self@ =~= prev.push((name_view, duration_ns)));
        }
    }

    /// The total duration of all recorded steps, in nanoseconds.
    pub fn total_duration(&self) -> (t: u128)
        ensures
            t == total_ns(self@),
    {
        let mut total: u128 = 0;
        let n = self.steps.len();
        let mut i: usize = 0;
        while i < n
            invariant
                n == self.steps.len(),
                0 <= i <= n,
                total == total_ns(self@.take(i as int)),
                total <= i * u64::MAX,
            decreases n - i,
        {
            proof {
                assert(self@.take(i + 1).drop_last() =~= self@.take(i as int));
                assert(self@.take(i + 1).last() == self@[i as int]);
            }
            total = total + self.steps[i].duration_ns as u128;
            i = i + 1;
        }
        proof {
            assert(self@.take(n as int) =~= self@);
        }
        total
    }

    /// The total duration recorded under the given name, in nanoseconds, or
    /// `None` if no step bears that name.
    pub fn get_step(&self, name: &str) -> (r: Option<u128>)
        ensures
            r is Some <==> has_step(self@, name@),
            r matches Some(t) ==> t == step_total_ns(self@, name@),
    {
        let key: String = name.to_owned();
        let mut total: u128 = 0;
        let mut found: bool = false;
        let n = self.steps.len();
        let mut i: usize = 0;
        while i < n
            invariant
                n == self.steps.len(),
                0 <= i <= n,
                key@ == name@,
                total == step_total_ns(self@.take(i as int), name@),
                total <= i * u64::MAX,
                found <==> has_step(self@.take(i as int), name@),
            decreases n - i,
        {
            proof {
                assert(self@.take(i + 1).drop_last() =~= self@.take(i as int));
                assert(self@.take(i + 1).last() == self@[i as int]);
            }
            let s = &self.steps[i];
            if s.name == key {
                total = total + s.duration_ns as u128;
                found = true;
                proof {
                    assert(self@.take(i + 1)[i as int].0 == name@);
                }
            } else {
                proof {
                    assert forall|j: int|
                        0 <= j < self@.take(i + 1).len() && (#[trigger] self@.take(i + 1)[j]).0
                            == name@ implies has_step(self@.take(i as int), name@) by {
                        assert(j < i + 1);
                        assert(j != i);
                        assert(self@.take(i as int)[j].0 == name@);
                    }
                }
            }
            i = i + 1;
        }
        proof {
            assert(self@.take(n as int) =~= self@);
        }
        if found {
            Some(total)
        } else {
            None
        }
    }

    /// The recorded steps, in order.
    pub fn steps(&self) -> (r: &Vec<StepTiming>)
        ensures
            r@.len() == self@.len(),
            forall|i: int|
                0 <= i < r@.len() ==> r@[i].name@ == self@[i].0 && r@[i].duration_ns == self@[i].1,
    {
        &self.steps
    }
}

/// A running wall-clock timer for one named pipeline step.
pub struct Timer {
    start: std::time::Instant,
    name: String,
}

impl View for Timer {
    type V = Seq<char>;

    closed spec fn view(&self) -> Seq<char> {
        self.name@
    }
}

impl Timer {
    /// Starts timing a named step.
    pub fn start(name: String) -> (r: Timer)
        ensures
            r@ == name@,
    {
        Timer { start: std::time::Instant::now(), name }
    }

    /// Stops the timer, yielding the step name and the elapsed nanoseconds
    /// (saturated at `u64::MAX`).
    pub fn stop(self) -> (r: (String, u64))
        ensures
            r.0@ == self@,
    {
        let elapsed = self.start.elapsed();
        let nanos = elapsed.as_nanos();
        let ns: u64 = if nanos > 0xffff_ffff_ffff_ffffu128 {
            0xffff_ffff_ffff_ffffu64
        } else {
            nanos as u64
        };
        (self.name, ns)
    }
}

} // verus!
