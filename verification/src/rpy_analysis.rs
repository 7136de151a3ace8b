//! Sliding-window bookkeeping of the roll/pitch/yaw analysis: which samples the
//! analysis window holds, how many samples were accepted, and when a statistics
//! report is due. The samples themselves are opaque to this module.

use vstd::prelude::*;
use std::collections::VecDeque;

verus! {

/// Window and cadence settings of the RPY analysis.
#[derive(Clone, Copy, Debug, PartialEq, Eq)]
pub struct RPYAnalysisConfig {
    /// Enable RPY analysis
    pub enabled: bool,
    /// Window size for statistical analysis (number of samples)
    pub analysis_window_size: usize,
    /// Minimum samples before analysis starts
    pub min_samples: usize,
    /// Output analysis results every N samples
    pub output_interval: usize,
    /// Enable depth error analysis (requires depth sensor data)
    pub depth_analysis_enabled: bool,
}

impl Default for RPYAnalysisConfig {
    fn default() -> (config: Self)
        ensures
            config == (RPYAnalysisConfig {
                enabled: false,
                analysis_window_size: 1000,
                min_samples: 100,
                output_interval: 250,
                depth_analysis_enabled: false,
            }),
    {
        RPYAnalysisConfig {
            enabled: false,
            analysis_window_size: 1000,
            min_samples: 100,
            output_interval: 250,
            depth_analysis_enabled: false,
        }
    }
}

/// The most samples a window of the given size holds: a window of size zero still
/// keeps the latest sample.
pub open spec fn window_capacity(window_size: nat) -> nat {
    if window_size == 0 { 1 } else { window_size }
}

/// The window after one sample arrives: when the window is full, its oldest sample leaves.
pub open spec fn slide<S>(window: Seq<S>, window_size: nat, sample: S) -> Seq<S> {
    let kept = if window.len() >= window_size && window.len() > 0 {
        window.drop_first()
    } else {
        window
    };
    kept.push(sample)
}

/// The length of the window after one sample arrives.
pub open spec fn slid_len(len: nat, window_size: nat) -> nat {
    if len >= window_size && len > 0 { len } else { len + 1 }
}

/// Whether a statistics report is due, given the window length and the number of
/// accepted samples after the latest one arrived.
pub open spec fn analysis_due(config: RPYAnalysisConfig, window_len: nat, accepted: nat) -> bool {
    &&& window_len >= config.min_samples
    &&& accepted % (config.output_interval as nat) == 0
}

/// The window that remains when the window size changes: its most recent samples,
/// as many as the new size allows.
pub open spec fn resized<S>(window: Seq<S>, new_size: nat) -> Seq<S> {
    if window.len() <= new_size {
        window
    } else {
        window.subrange(window.len() - new_size, window.len() as int)
    }
}


/// The window after each sample of `history` arrived in turn at an enabled analyzer
/// that started empty.
pub open spec fn window_after<S>(history: Seq<S>, window_size: nat) -> Seq<S>
    decreases history.len(),
{
    if history.len() == 0 {
        Seq::empty()
    } else {
        slide(window_after(history.drop_last(), window_size), window_size, history.last())
    }
}

/// The number of samples the window holds after `n` samples arrived.
pub open spec fn filled(n: nat, window_size: nat) -> nat {
    if n <= window_capacity(window_size) { n } else { window_capacity(window_size) }
}

/// The sliding window holds exactly the latest samples: after any sequence of samples,
/// the window is the last `analysis_window_size` of them (at least the last one), in
/// the order in which they arrived.
pub proof fn lemma_window_holds_latest_samples<S>(history: Seq<S>, window_size: nat)
    ensures
        window_after(history, window_size) == history.subrange(
            history.len() - filled(history.len(), window_size),
            history.len() as int,
        ),
    decreases history.len(),
{
    if history.len() == 0 {
        assert(history.subrange(0, 0) =~= Seq::<S>::empty());
    } else {
        let prev = history.drop_last();
        lemma_window_holds_latest_samples(prev, window_size);
        let n = history.len();
        let m = filled(prev.len(), window_size);
        let w = window_after(prev, window_size);
        assert(w.len() == m);
        if m >= window_size && m > 0 {
            assert(w.drop_first().push(history.last()) =~= history.subrange(
                n - filled(n, window_size),
                n as int,
            ));
        } else {
            assert(w.push(history.last()) =~= history.subrange(
                n - filled(n, window_size),
                n as int,
            ));
        }
    }
}

/// Reports come on a fixed cadence: when the window can hold `min_samples` samples,
/// a report is due after the `n`-th sample exactly when at least `min_samples`
/// samples have arrived and `n` is a multiple of `output_interval`.
pub proof fn lemma_report_cadence<S>(config: RPYAnalysisConfig, history: Seq<S>)
    requires
        config.min_samples <= window_capacity(config.analysis_window_size as nat),
        config.output_interval > 0,
    ensures
        analysis_due(
            config,
            window_after(history, config.analysis_window_size as nat).len(),
            history.len(),
        ) <==> (history.len() >= config.min_samples
            && history.len() % (config.output_interval as nat) == 0),
{
    lemma_window_holds_latest_samples(history, config.analysis_window_size as nat);
}

/// The positions, in order, of the samples that carry a metric value.
pub open spec fn marked_indices(has_metric: Seq<bool>) -> Seq<usize>
    decreases has_metric.len(),
{
    if has_metric.len() == 0 {
        Seq::empty()
    } else {
        let earlier = marked_indices(has_metric.drop_last());
        if has_metric.last() {
            earlier.push((has_metric.len() - 1) as usize)
        } else {
            earlier
        }
    }
}

/// A correlation against a metric needs more than this many samples that carry it.
pub open spec fn min_correlation_pairs() -> nat {
    10
}

/// The samples paired for a correlation against a metric: `has_metric[i]` tells
/// whether sample `i` of the window carries the metric (a depth error or a velocity).
/// Samples without the metric are left out; with ten or fewer paired samples there
/// is no correlation (`None`). Otherwise the result lists the paired sample
/// positions, oldest first.
pub fn correlation_sample_indices(has_metric: &Vec<bool>) -> (pairs: Option<Vec<usize>>)
    ensures
        pairs is Some <==> marked_indices(has_metric@).len() > min_correlation_pairs(),
        pairs matches Some(v) ==> v@ == marked_indices(has_metric@),
{
    let n = has_metric.len();
    let mut indices: Vec<usize> = Vec::new();
    let mut i: usize = 0;
    while i < n
        invariant
            n == has_metric@.len(),
            i <= n,
            indices@ == marked_indices(has_metric@.take(i as int)),
        decreases n - i,
    {
        assert(has_metric@.take(i + 1).drop_last() =~= has_metric@.take(i as int));
        if has_metric[i] {
            indices.push(i);
        }
        i = i + 1;
    }
    assert(has_metric@.take(n as int) =~= has_metric@);
    if indices.len() > 10 {
        Some(indices)
    } else {
        None
    }
}

/// Real-time RPY analyzer: a sliding window of samples and a count of the samples
/// it accepted.
pub struct RPYAnalyzer<S> {
    config: RPYAnalysisConfig,
    samples: VecDeque<S>,
    sample_count: usize,
}

impl<S> RPYAnalyzer<S> {
    /// The samples in the window, oldest first.
    pub closed spec fn window(&self) -> Seq<S> {
        self.samples@
    }

    /// The number of samples accepted since the analyzer was made.
    pub closed spec fn accepted(&self) -> nat {
        self.sample_count as nat
    }

    /// The settings in force.
    pub closed spec fn settings(&self) -> RPYAnalysisConfig {
        self.config
    }

    /// The window never holds more samples than its capacity.
    #[verifier::type_invariant]
    closed spec fn window_within_capacity(&self) -> bool {
        self.samples@.len() <= window_capacity(self.config.analysis_window_size as nat)
    }

    /// Whether adding one more sample would divide by a zero output interval.
    pub open spec fn add_would_divide_by_zero(&self) -> bool {
        &&& self.settings().enabled
        &&& slid_len(self.window().len(), self.settings().analysis_window_size as nat)
            >= self.settings().min_samples
        &&& self.settings().output_interval == 0
    }

    pub fn new(config: RPYAnalysisConfig) -> (analyzer: Self)
        ensures
            analyzer.window() == Seq::<S>::empty(),
            analyzer.accepted() == 0,
            analyzer.settings() == config,
    {
        RPYAnalyzer {
            samples: VecDeque::with_capacity(config.analysis_window_size),
            config,
            sample_count: 0,
        }
    }

    /// Add a new RPY sample to the window. Returns whether a statistics report over
    /// the window is due now. A disabled analyzer ignores the sample.
    pub fn add_sample(&mut self, sample: S) -> (due: bool)
        requires
            old(self).settings().enabled ==> old(self).accepted() < usize::MAX,
            !old(self).add_would_divide_by_zero(),
        ensures
            final(self).settings() == old(self).settings(),
            final(self).window().len() <= window_capacity(final(self).settings().analysis_window_size as nat),
            !old(self).settings().enabled ==> {
                &&& !due
                &&& final(self).window() == old(self).window()
                &&& final(self).accepted() == old(self).accepted()
            },
            old(self).settings().enabled ==> {
                &&& final(self).window() == slide(
                    old(self).window(),
                    old(self).settings().analysis_window_size as nat,
                    sample,
                )
                &&& final(self).accepted() == old(self).accepted() + 1
                &&& due == analysis_due(
                    final(self).settings(),
                    final(self).window().len(),
                    final(self).accepted(),
                )
            },
    {
        proof { use_type_invariant(&*self); }
        if !self.config.enabled {
            return false;
        }
        let ghost before = self.samples@;
        let mut samples = VecDeque::new();
        std::mem::swap(&mut samples, &mut self.samples);
        if samples.len() >= self.config.analysis_window_size {
            let _ = samples.pop_front();
        }
        samples.push_back(sample);
        self.samples = samples;
        self.sample_count = self.sample_count + 1;
        proof {
            let w = self.config.analysis_window_size as nat;
            if before.len() >= w && before.len() > 0 {
                assert(before.drop_first() =~= before.subrange(1, before.len() as int));
            }
            assert(self.samples@ =~= slide(before, w, sample));
        }
        self.should_output_analysis()
    }

    fn should_output_analysis(&self) -> (due: bool)
        requires
            self.samples@.len() >= self.config.min_samples ==> self.config.output_interval > 0,
        ensures
            due == analysis_due(self.config, self.samples@.len(), self.sample_count as nat),
    {
        if self.samples.len() < self.config.min_samples {
            return false;
        }
        if self.sample_count % self.config.output_interval != 0 {
            return false;
        }
        true
    }

    /// Get current configuration
    pub fn config(&self) -> (config: &RPYAnalysisConfig)
        ensures
            *config == self.settings(),
    {
        &self.config
    }

    /// The samples in the window, oldest first.
    pub fn samples(&self) -> (samples: &VecDeque<S>)
        ensures
            samples@ == self.window(),
    {
        &self.samples
    }

    /// The number of samples accepted so far.
    pub fn sample_count(&self) -> (count: usize)
        ensures
            count == self.accepted(),
    {
        self.sample_count
    }

    /// Update configuration. When the window size changes, the window keeps its most
    /// recent samples, as many as the new size allows.
    pub fn update_config(&mut self, config: RPYAnalysisConfig)
        ensures
            final(self).settings() == config,
            final(self).window().len() <= window_capacity(config.analysis_window_size as nat),
            final(self).accepted() == old(self).accepted(),
            config.analysis_window_size != old(self).settings().analysis_window_size ==>
                final(self).window() == resized(old(self).window(), config.analysis_window_size as nat),
            config.analysis_window_size == old(self).settings().analysis_window_size ==>
                final(self).window() == old(self).window(),
    {
        proof { use_type_invariant(&*self); }
        if config.analysis_window_size != self.config.analysis_window_size {
            let ghost before = self.samples@;
            let mut samples = VecDeque::new();
            std::mem::swap(&mut samples, &mut self.samples);
            let keep: usize = if config.analysis_window_size < samples.len() {
                config.analysis_window_size
            } else {
                samples.len()
            };
            while samples.len() > keep
                invariant
                    keep <= samples@.len() <= before.len(),
                    keep == if config.analysis_window_size < before.len() {
                        config.analysis_window_size as nat
                    } else {
                        before.len()
                    },
                    samples@ =~= before.subrange(
                        before.len() - samples@.len(),
                        before.len() as int,
                    ),
                decreases samples@.len(),
            {
                let _ = samples.pop_front();
            }
            assert(samples@ =~= resized(before, config.analysis_window_size as nat));
            self.config = config;
            self.samples = samples;
        } else {
            self.config = config;
        }
    }
}

} // verus!
