use crate::error::StftError;
use crate::ring;
use crate::sample::{ComplexSample, ZERO};
use std::collections::VecDeque;
use vstd::prelude::*;

verus! {

/// Whether the three sizes describe an engine: `0 < step_size < window_size <= fft_size`.
pub open spec fn valid_sizes(window_size: nat, fft_size: nat, step_size: nat) -> bool {
    0 < step_size < window_size <= fft_size
}

/// The number of bins in a column: the lower half of the transform.
pub open spec fn output_size_of(fft_size: nat) -> nat {
    fft_size / 2
}

/// The first `window_size` of the buffered samples.
pub open spec fn frame_of(samples: Seq<u64>, window_size: nat) -> Seq<u64> {
    samples.take(window_size as int)
}

/// The pairs that windowing multiplies: word `i` of the staged window with
/// coefficient `i`, as far as both reach. Without a window there are none.
pub open spec fn window_operands_of(staged: Seq<u64>, window: Option<Seq<u64>>) -> Seq<(u64, u64)> {
    match window {
        Some(coefficients) => Seq::new(
            if staged.len() <= coefficients.len() {
                staged.len()
            } else {
                coefficients.len()
            },
            |i: int| (staged[i], coefficients[i]),
        ),
        None => Seq::empty(),
    }
}

/// `staged` with its leading words replaced by `products`.
pub open spec fn windowed(staged: Seq<u64>, products: Seq<u64>) -> Seq<u64> {
    products + staged.skip(products.len() as int)
}

/// `staged` as the real parts of a complex buffer of `fft_size` values: what
/// lies beyond `staged` is zero, and so is every imaginary part.
pub open spec fn zero_padded(staged: Seq<u64>, fft_size: nat) -> Seq<ComplexSample> {
    Seq::new(
        fft_size,
        |i: int|
            if i < staged.len() {
                ComplexSample::from_real(staged[i])
            } else {
                ComplexSample::zero()
            },
    )
}

/// The column of a spectrum: its lower half.
pub open spec fn column_of(spectrum: Seq<ComplexSample>, fft_size: nat) -> Seq<ComplexSample> {
    spectrum.take(output_size_of(fft_size) as int)
}

/// `count` words of zero.
pub open spec fn zeros(count: nat) -> Seq<u64> {
    Seq::new(count, |i: int| ZERO)
}

/// The view of an optional vector of words.
pub open spec fn option_view(window: Option<Vec<u64>>) -> Option<Seq<u64>> {
    match window {
        Some(coefficients) => Some(coefficients@),
        None => None,
    }
}

/// One operation on an engine that may change what it holds.
pub enum Step {
    /// These samples are appended.
    Append(Seq<u64>),
    /// The engine moves to the next column.
    Advance,
    /// The first window is read into the staging buffer.
    Peek,
    /// These products take the place of the staged samples.
    Window(Seq<u64>),
    /// The staged samples are laid out as the input of the transform.
    Load,
    /// This spectrum is taken back.
    Store(Seq<ComplexSample>),
}

/// What an engine holds.
pub struct StftView {
    /// The number of samples that one column consumes.
    pub window_size: nat,
    /// The length of the transform.
    pub fft_size: nat,
    /// The number of samples that advancing drops.
    pub step_size: nat,
    /// The window coefficients, if the window tapers.
    pub window: Option<Seq<u64>>,
    /// The buffered samples, oldest first.
    pub samples: Seq<u64>,
    /// The real staging buffer.
    pub real_input: Seq<u64>,
    /// The complex transform buffer.
    pub complex_input_output: Seq<ComplexSample>,
}

impl StftView {
    /// What an engine holds when it has just been made.
    pub open spec fn initial(
        window: Option<Seq<u64>>,
        window_size: nat,
        fft_size: nat,
        step_size: nat,
    ) -> StftView {
        StftView {
            window_size,
            fft_size,
            step_size,
            window,
            samples: Seq::empty(),
            real_input: zeros(window_size),
            complex_input_output: zero_padded(Seq::empty(), fft_size),
        }
    }

    /// The sizes are valid and each working buffer has its length.
    pub open spec fn valid(self) -> bool {
        &&& valid_sizes(self.window_size, self.fft_size, self.step_size)
        &&& self.real_input.len() == self.window_size
        &&& self.complex_input_output.len() == self.fft_size
    }

    /// Whether a full window is buffered.
    pub open spec fn enough(self) -> bool {
        self.samples.len() >= self.window_size
    }

    /// Whether a column of `output_len` bins can be computed: a full window
    /// must be buffered, and a column has `output_size` bins.
    pub open spec fn column_check(self, output_len: nat) -> Result<(), StftError> {
        if !self.enough() {
            Err(StftError::InsufficientSamples)
        } else if output_len != output_size_of(self.fft_size) {
            Err(StftError::SizeMismatch)
        } else {
            Ok(())
        }
    }

    /// The pairs that windowing the staged samples multiplies.
    pub open spec fn operands(self) -> Seq<(u64, u64)> {
        window_operands_of(self.real_input, self.window)
    }

    /// After `input` has been appended.
    pub open spec fn appended(self, input: Seq<u64>) -> StftView {
        StftView { samples: self.samples + input, ..self }
    }

    /// After one step: the first `step_size` samples are gone, or all of them
    /// where fewer were buffered.
    pub open spec fn advanced(self) -> StftView {
        StftView {
            samples: if self.step_size <= self.samples.len() {
                self.samples.skip(self.step_size as int)
            } else {
                Seq::empty()
            },
            ..self
        }
    }

    /// After the first window has been read into the staging buffer.
    pub open spec fn peeked(self) -> StftView {
        StftView { real_input: frame_of(self.samples, self.window_size), ..self }
    }

    /// After `products` have taken the place of the staged samples that they
    /// were computed from.
    pub open spec fn with_products(self, products: Seq<u64>) -> StftView {
        StftView { real_input: windowed(self.real_input, products), ..self }
    }

    /// After the staged samples have been laid out as the input of the
    /// transform.
    pub open spec fn loaded(self) -> StftView {
        StftView { complex_input_output: zero_padded(self.real_input, self.fft_size), ..self }
    }

    /// After the transformed buffer has been taken back.
    pub open spec fn stored(self, spectrum: Seq<ComplexSample>) -> StftView {
        StftView { complex_input_output: spectrum, ..self }
    }

    /// The column that the transform buffer holds.
    pub open spec fn column(self) -> Seq<ComplexSample> {
        column_of(self.complex_input_output, self.fft_size)
    }

    /// Whether the engine refuses `step`, and why.
    pub open spec fn refusal(self, step: Step) -> Option<StftError> {
        match step {
            Step::Peek => if self.enough() {
                None
            } else {
                Some(StftError::InsufficientSamples)
            },
            Step::Window(products) => if products.len() == self.operands().len() {
                None
            } else {
                Some(StftError::SizeMismatch)
            },
            Step::Store(spectrum) => if spectrum.len() == self.fft_size {
                None
            } else {
                Some(StftError::SizeMismatch)
            },
            _ => None,
        }
    }

    /// After `step`. A step that the engine refuses leaves everything as it is.
    pub open spec fn after(self, step: Step) -> StftView {
        if self.refusal(step) is Some {
            self
        } else {
            match step {
                Step::Append(input) => self.appended(input),
                Step::Advance => self.advanced(),
                Step::Peek => self.peeked(),
                Step::Window(products) => self.with_products(products),
                Step::Load => self.loaded(),
                Step::Store(spectrum) => self.stored(spectrum),
            }
        }
    }

    /// After `steps`, one after the other.
    pub open spec fn after_all(self, steps: Seq<Step>) -> StftView
        decreases steps.len(),
    {
        if steps.len() == 0 {
            self
        } else {
            self.after_all(steps.drop_last()).after(steps.last())
        }
    }
}

/// What `refusal` is as the result of a step.
pub open spec fn step_result(refusal: Option<StftError>) -> Result<(), StftError> {
    match refusal {
        Some(error) => Err(error),
        None => Ok(()),
    }
}

/// The streaming engine: the sample buffer, the window and the working buffers.
pub struct STFT {
    window_size: usize,
    fft_size: usize,
    step_size: usize,
    window: Option<Vec<u64>>,
    sample_ring: VecDeque<u64>,
    real_input: Vec<u64>,
    complex_input_output: Vec<ComplexSample>,
}

impl View for STFT {
    type V = StftView;

    closed spec fn view(&self) -> StftView {
        StftView {
            window_size: self.window_size as nat,
            fft_size: self.fft_size as nat,
            step_size: self.step_size as nat,
            window: option_view(self.window),
            samples: self.sample_ring@,
            real_input: self.real_input@,
            complex_input_output: self.complex_input_output@,
        }
    }
}

/// A vector of `count` words of zero.
fn zero_words(count: usize) -> (r: Vec<u64>)
    ensures
        r@ == zeros(count as nat),
{
    let mut r: Vec<u64> = Vec::new();
    let mut i: usize = 0;
    while i < count
        invariant
            i <= count,
            r@ == zeros(i as nat),
        decreases count - i,
    {
        r.push(ZERO);
        i = i + 1;
        assert(r@ =~= zeros(i as nat));
    }
    r
}

/// A complex buffer of `count` zeros.
fn zero_buffer(count: usize) -> (r: Vec<ComplexSample>)
    ensures
        r@ == zero_padded(Seq::empty(), count as nat),
{
    let mut r: Vec<ComplexSample> = Vec::new();
    let mut i: usize = 0;
    while i < count
        invariant
            i <= count,
            r@ == zero_padded(Seq::empty(), i as nat),
        decreases count - i,
    {
        r.push(ComplexSample { re: ZERO, im: ZERO });
        i = i + 1;
        assert(r@ =~= zero_padded(Seq::empty(), i as nat));
    }
    r
}

/// The lesser of two lengths.
fn lesser(a: usize, b: usize) -> (r: usize)
    ensures
        r == if a <= b {
            a
        } else {
            b
        },
{
    if a <= b {
        a
    } else {
        b
    }
}

impl STFT {
    /// The invariant of an engine: every constructor establishes it and every
    /// method keeps it.
    pub open spec fn wf(&self) -> bool {
        self@.valid()
    }

    /// Makes an engine with explicit window coefficients and a transform that
    /// may be longer than the window.
    ///
    /// Coefficient `i` tapers sample `i` of a window; where `window` is absent,
    /// or shorter than the window, the samples it does not reach stay as they
    /// are.
    pub fn new_with_window_vec_and_zero_padding(
        window: Option<Vec<u64>>,
        window_size: usize,
        fft_size: usize,
        step_size: usize,
    ) -> (r: Result<STFT, StftError>)
        ensures
            valid_sizes(window_size as nat, fft_size as nat, step_size as nat) ==> r is Ok
                && r->Ok_0.wf() && r->Ok_0@ == StftView::initial(
                option_view(window),
                window_size as nat,
                fft_size as nat,
                step_size as nat,
            ),
            !valid_sizes(window_size as nat, fft_size as nat, step_size as nat) ==> r == Err::<
                STFT,
                StftError,
            >(StftError::InvalidConfiguration),
    {
        if step_size == 0 || step_size >= window_size || fft_size < window_size {
            return Err(StftError::InvalidConfiguration);
        }
        Ok(
            STFT {
                window_size,
                fft_size,
                step_size,
                window,
                sample_ring: VecDeque::new(),
                real_input: zero_words(window_size),
                complex_input_output: zero_buffer(fft_size),
            },
        )
    }

    /// Makes an engine with explicit window coefficients and a transform as
    /// long as the window.
    pub fn new_with_window_vec(window: Option<Vec<u64>>, window_size: usize, step_size: usize) -> (r:
        Result<STFT, StftError>)
        ensures
            valid_sizes(window_size as nat, window_size as nat, step_size as nat) ==> r is Ok
                && r->Ok_0.wf() && r->Ok_0@ == StftView::initial(
                option_view(window),
                window_size as nat,
                window_size as nat,
                step_size as nat,
            ),
            !valid_sizes(window_size as nat, window_size as nat, step_size as nat) ==> r == Err::<
                STFT,
                StftError,
            >(StftError::InvalidConfiguration),
    {
        STFT::new_with_window_vec_and_zero_padding(window, window_size, window_size, step_size)
    }

    /// The number of bins in a column.
    pub fn output_size(&self) -> (r: usize)
        ensures
            r == output_size_of(self@.fft_size),
            r == self@.fft_size / 2,
    {
        self.fft_size / 2
    }

    /// The number of buffered samples.
    pub fn len(&self) -> (r: usize)
        ensures
            r == self@.samples.len(),
    {
        self.sample_ring.len()
    }

    /// Whether no sample is buffered.
    pub fn is_empty(&self) -> (r: bool)
        ensures
            r == (self@.samples.len() == 0),
    {
        self.len() == 0
    }

    /// Appends `input` to the back of the buffered samples.
    pub fn append_samples(&mut self, input: &[u64])
        ensures
            final(self)@ == old(self)@.appended(input@),
            final(self)@ == old(self)@.after(Step::Append(input@)),
            final(self)@.samples.len() == old(self)@.samples.len() + input@.len(),
    {
        ring::push_many_back(&mut self.sample_ring, input);
    }

    /// Whether a full window is buffered.
    pub fn contains_enough_to_compute(&self) -> (r: bool)
        ensures
            r == self@.enough(),
            r == (self@.samples.len() >= self@.window_size),
    {
        self.window_size <= self.sample_ring.len()
    }

    /// Decides whether a column of `output_len` bins can be computed now.
    pub fn check_column(&self, output_len: usize) -> (r: Result<(), StftError>)
        ensures
            r == self@.column_check(output_len as nat),
    {
        if self.sample_ring.len() < self.window_size {
            Err(StftError::InsufficientSamples)
        } else if output_len != self.fft_size / 2 {
            Err(StftError::SizeMismatch)
        } else {
            Ok(())
        }
    }

    /// Reads the first window of buffered samples into the staging buffer,
    /// without consuming them.
    pub fn peek_window(&mut self) -> (r: Result<(), StftError>)
        requires
            old(self).wf(),
        ensures
            old(self)@.enough() ==> r is Ok && final(self)@ == old(self)@.peeked(),
            !old(self)@.enough() ==> r == Err::<(), StftError>(StftError::InsufficientSamples)
                && final(self)@ == old(self)@,
            r == step_result(old(self)@.refusal(Step::Peek)),
            final(self)@ == old(self)@.after(Step::Peek),
            final(self).wf(),
    {
        if self.sample_ring.len() < self.window_size {
            return Err(StftError::InsufficientSamples);
        }
        ring::read_many_front(&self.sample_ring, &mut self.real_input);
        assert(self.real_input@ =~= frame_of(old(self)@.samples, old(self)@.window_size));
        Ok(())
    }

    /// The pairs to multiply in order to window the staged samples: each
    /// holds a staged sample and its coefficient.
    pub fn window_operands(&self) -> (r: Vec<(u64, u64)>)
        ensures
            r@ == self@.operands(),
    {
        let mut r: Vec<(u64, u64)> = Vec::new();
        match &self.window {
            Some(coefficients) => {
                let count = lesser(self.real_input.len(), coefficients.len());
                let mut i: usize = 0;
                while i < count
                    invariant
                        i <= count,
                        count <= self.real_input.len(),
                        count <= coefficients.len(),
                        r@ == Seq::new(i as nat, |k: int| (self.real_input@[k], coefficients@[k])),
                    decreases count - i,
                {
                    r.push((self.real_input[i], coefficients[i]));
                    i = i + 1;
                    assert(r@ =~= Seq::new(
                        i as nat,
                        |k: int| (self.real_input@[k], coefficients@[k]),
                    ));
                }
            },
            None => {},
        }
        r
    }

    /// Puts the products of the window operands in the place of the staged
    /// samples that they were computed from.
    pub fn apply_window(&mut self, products: &[u64]) -> (r: Result<(), StftError>)
        ensures
            products@.len() == old(self)@.operands().len() ==> r is Ok && final(self)@ == old(
                self,
            )@.with_products(products@),
            products@.len() != old(self)@.operands().len() ==> r == Err::<(), StftError>(
                StftError::SizeMismatch,
            ) && final(self)@ == old(self)@,
            r == step_result(old(self)@.refusal(Step::Window(products@))),
            final(self)@ == old(self)@.after(Step::Window(products@)),
            final(self).wf() == old(self).wf(),
    {
        let expected = match &self.window {
            Some(coefficients) => lesser(self.real_input.len(), coefficients.len()),
            None => 0,
        };
        if products.len() != expected {
            return Err(StftError::SizeMismatch);
        }
        let mut i: usize = 0;
        while i < expected
            invariant
                i <= expected,
                expected == products@.len(),
                expected <= old(self)@.real_input.len(),
                self.real_input@ == products@.take(i as int) + old(self)@.real_input.skip(i as int),
                self@ == (StftView { real_input: self.real_input@, ..old(self)@ }),
            decreases expected - i,
        {
            self.real_input.set(i, products[i]);
            i = i + 1;
            assert(self.real_input@ =~= products@.take(i as int) + old(self)@.real_input.skip(
                i as int,
            ));
        }
        assert(products@.take(expected as int) =~= products@);
        Ok(())
    }

    /// Lays the staged samples out as the input of the transform: they become
    /// the real parts of the first `window_size` values, and every other part
    /// of the buffer is set to zero.
    pub fn load_transform_input(&mut self)
        requires
            old(self).wf(),
        ensures
            final(self)@ == old(self)@.loaded(),
            final(self)@ == old(self)@.after(Step::Load),
            final(self).wf(),
    {
        let mut i: usize = 0;
        while i < self.fft_size
            invariant
                i <= self.fft_size,
                old(self).wf(),
                self.complex_input_output@.len() == self.fft_size,
                forall|k: int|
                    0 <= k < i ==> self.complex_input_output@[k] == zero_padded(
                        old(self)@.real_input,
                        old(self)@.fft_size,
                    )[k],
                self@ == (StftView {
                    complex_input_output: self.complex_input_output@,
                    ..old(self)@
                }),
            decreases self.fft_size - i,
        {
            let value = if i < self.window_size {
                ComplexSample { re: self.real_input[i], im: ZERO }
            } else {
                ComplexSample { re: ZERO, im: ZERO }
            };
            self.complex_input_output.set(i, value);
            i = i + 1;
        }
        assert(self.complex_input_output@ =~= zero_padded(
            old(self)@.real_input,
            old(self)@.fft_size,
        ));
    }

    /// The complex transform buffer: the input of the transform once it has
    /// been loaded, the spectrum once that has been stored.
    pub fn complex_input_output(&self) -> (r: &Vec<ComplexSample>)
        ensures
            r@ == self@.complex_input_output,
    {
        &self.complex_input_output
    }

    /// Takes the transformed buffer back.
    pub fn store_transform_output(&mut self, spectrum: &[ComplexSample]) -> (r: Result<
        (),
        StftError,
    >)
        requires
            old(self).wf(),
        ensures
            spectrum@.len() == old(self)@.fft_size ==> r is Ok && final(self)@ == old(
                self,
            )@.stored(spectrum@),
            spectrum@.len() != old(self)@.fft_size ==> r == Err::<(), StftError>(
                StftError::SizeMismatch,
            ) && final(self)@ == old(self)@,
            r == step_result(old(self)@.refusal(Step::Store(spectrum@))),
            final(self)@ == old(self)@.after(Step::Store(spectrum@)),
            final(self).wf(),
    {
        if spectrum.len() != self.fft_size {
            return Err(StftError::SizeMismatch);
        }
        let mut i: usize = 0;
        while i < self.fft_size
            invariant
                i <= self.fft_size,
                old(self).wf(),
                spectrum@.len() == self.fft_size,
                self.complex_input_output@.len() == self.fft_size,
                forall|k: int| 0 <= k < i ==> self.complex_input_output@[k] == spectrum@[k],
                self@ == (StftView {
                    complex_input_output: self.complex_input_output@,
                    ..old(self)@
                }),
            decreases self.fft_size - i,
        {
            self.complex_input_output.set(i, spectrum[i]);
            i = i + 1;
        }
        assert(self.complex_input_output@ =~= spectrum@);
        Ok(())
    }

    /// Copies the column out of the transform buffer: its first
    /// `output_size` values.
    pub fn copy_column(&self, output: &mut Vec<ComplexSample>) -> (r: Result<(), StftError>)
        requires
            self.wf(),
        ensures
            old(output)@.len() == output_size_of(self@.fft_size) ==> r is Ok && final(output)@
                == self@.column(),
            old(output)@.len() != output_size_of(self@.fft_size) ==> r == Err::<(), StftError>(
                StftError::SizeMismatch,
            ) && final(output)@ == old(output)@,
    {
        let output_size = self.fft_size / 2;
        if output.len() != output_size {
            return Err(StftError::SizeMismatch);
        }
        let mut i: usize = 0;
        while i < output_size
            invariant
                i <= output_size,
                output_size == self.fft_size / 2,
                self.wf(),
                output@.len() == output_size,
                forall|k: int| 0 <= k < i ==> output@[k] == self.complex_input_output@[k],
            decreases output_size - i,
        {
            output.set(i, self.complex_input_output[i]);
            i = i + 1;
        }
        assert(output@ =~= self@.column());
        Ok(())
    }

    /// The number of samples that one column consumes.
    pub fn window_size(&self) -> (r: usize)
        ensures
            r == self@.window_size,
    {
        self.window_size
    }

    /// The length of the transform.
    pub fn fft_size(&self) -> (r: usize)
        ensures
            r == self@.fft_size,
    {
        self.fft_size
    }

    /// The number of samples that advancing drops.
    pub fn step_size(&self) -> (r: usize)
        ensures
            r == self@.step_size,
    {
        self.step_size
    }

    /// The window coefficients, if the window tapers.
    pub fn window(&self) -> (r: &Option<Vec<u64>>)
        ensures
            option_view(*r) == self@.window,
    {
        &self.window
    }

    /// Drops one step of samples from the front of the buffer, or all of them
    /// where fewer are buffered.
    pub fn move_to_next_column(&mut self)
        ensures
            final(self)@ == old(self)@.advanced(),
            final(self)@ == old(self)@.after(Step::Advance),
            old(self)@.samples.len() >= old(self)@.step_size ==> final(self)@.samples.len() == old(
                self,
            )@.samples.len() - old(self)@.step_size,
    {
        ring::drop_many_front(&mut self.sample_ring, self.step_size);
        assert(old(self)@.samples.skip(old(self)@.samples.len() as int) =~= Seq::empty());
    }
}

/// A step keeps a valid engine valid, and changes neither its sizes nor its
/// window.
pub proof fn lemma_step_keeps_configuration(v: StftView, step: Step)
    requires
        v.valid(),
    ensures
        v.after(step).valid(),
        v.after(step).window_size == v.window_size,
        v.after(step).fft_size == v.fft_size,
        v.after(step).step_size == v.step_size,
        v.after(step).window == v.window,
{
}

/// The sizes and the window are fixed for the lifetime of an engine, and the
/// engine stays valid: whatever steps are taken, in whatever order.
pub proof fn lemma_configuration_is_fixed(v: StftView, steps: Seq<Step>)
    requires
        v.valid(),
    ensures
        v.after_all(steps).valid(),
        v.after_all(steps).window_size == v.window_size,
        v.after_all(steps).fft_size == v.fft_size,
        v.after_all(steps).step_size == v.step_size,
        v.after_all(steps).window == v.window,
    decreases steps.len(),
{
    if steps.len() > 0 {
        lemma_configuration_is_fixed(v, steps.drop_last());
        lemma_step_keeps_configuration(v.after_all(steps.drop_last()), steps.last());
    }
}

/// Only appending and advancing change the buffered samples: steps that
/// compute columns leave them as they are.
pub proof fn lemma_computing_keeps_samples(v: StftView, steps: Seq<Step>)
    requires
        forall|i: int| 0 <= i < steps.len() ==> !(steps[i] is Append) && !(steps[i] is Advance),
    ensures
        v.after_all(steps).samples == v.samples,
    decreases steps.len(),
{
    if steps.len() > 0 {
        lemma_computing_keeps_samples(v, steps.drop_last());
    }
}

/// Whatever steps were taken, enough is buffered for a column exactly when
/// the number of buffered samples has reached the window size.
pub proof fn lemma_enough_after_any_steps(v: StftView, steps: Seq<Step>)
    requires
        v.valid(),
    ensures
        v.after_all(steps).enough() == (v.after_all(steps).samples.len() >= v.window_size),
{
    lemma_configuration_is_fixed(v, steps);
}

/// Once a column has passed the check, none of its steps is refused, as long
/// as the products and the spectrum that come back have the lengths of what
/// was handed out.
pub proof fn lemma_checked_column_succeeds(
    v: StftView,
    output_len: nat,
    products: Seq<u64>,
    spectrum: Seq<ComplexSample>,
)
    requires
        v.valid(),
        v.column_check(output_len) is Ok,
        products.len() == v.peeked().operands().len(),
        spectrum.len() == v.fft_size,
    ensures
        v.refusal(Step::Peek) is None,
        v.peeked().refusal(Step::Window(products)) is None,
        v.peeked().with_products(products).loaded().refusal(Step::Store(spectrum)) is None,
        v.peeked().with_products(products).loaded().stored(spectrum).column().len() == output_len,
{
}

/// Computing a column leaves the buffered samples as they were, and leaves no
/// trace on the next column: as long as the engine is not advanced, and the
/// products and the spectrum come out the same, computing the column again
/// stages the same operands and the same transform input, and ends with the
/// same column.
pub proof fn lemma_column_is_repeatable(
    v: StftView,
    products: Seq<u64>,
    spectrum: Seq<ComplexSample>,
)
    ensures
        ({
            let once = v.peeked().with_products(products).loaded().stored(spectrum);
            let twice = once.peeked().with_products(products).loaded().stored(spectrum);
            &&& once.samples == v.samples
            &&& once.peeked().operands() == v.peeked().operands()
            &&& once.peeked().with_products(products).loaded() == v.peeked().with_products(
                products,
            ).loaded()
            &&& twice == once
            &&& twice.column() == once.column()
        }),
{
}

/// What the working buffers hold has no part in a column: two engines with
/// the same samples, window and sizes stage the same operands and, from the
/// same products, the same transform input.
pub proof fn lemma_column_ignores_working_buffers(a: StftView, b: StftView, products: Seq<u64>)
    requires
        a.samples == b.samples,
        a.window == b.window,
        a.window_size == b.window_size,
        a.fft_size == b.fft_size,
    ensures
        a.peeked().operands() == b.peeked().operands(),
        a.peeked().with_products(products).loaded().complex_input_output == b.peeked().with_products(
            products,
        ).loaded().complex_input_output,
{
}

/// The transform input of a column: the windowed frame in the real parts of
/// the first `window_size` values, zero everywhere else.
pub proof fn lemma_transform_input(v: StftView, products: Seq<u64>, i: int)
    requires
        v.valid(),
        v.enough(),
        products.len() == v.peeked().operands().len(),
        0 <= i < v.fft_size,
    ensures
        ({
            let input = v.peeked().with_products(products).loaded().complex_input_output;
            &&& input.len() == v.fft_size
            &&& input[i].im == ZERO
            &&& i < products.len() ==> input[i].re == products[i]
            &&& products.len() <= i < v.window_size ==> input[i].re == v.samples[i]
            &&& v.window_size <= i ==> input[i].re == ZERO
        }),
{
}

/// Consecutive windows overlap by `window_size - step_size` samples: the
/// window after a step begins with what the window before it ended with.
pub proof fn lemma_windows_overlap(v: StftView)
    requires
        v.valid(),
        v.samples.len() >= v.window_size + v.step_size,
    ensures
        frame_of(v.advanced().samples, v.window_size).take(v.window_size - v.step_size)
            == frame_of(v.samples, v.window_size).skip(v.step_size as int),
{
    assert(frame_of(v.advanced().samples, v.window_size).take(v.window_size - v.step_size)
        =~= frame_of(v.samples, v.window_size).skip(v.step_size as int));
}

/// Appending adds the length of the input to the number of buffered
/// samples, and a step takes `step_size` off it where that many are buffered.
pub proof fn lemma_buffer_accounting(v: StftView, input: Seq<u64>)
    ensures
        v.appended(input).samples.len() == v.samples.len() + input.len(),
        v.samples.len() >= v.step_size ==> v.advanced().samples.len() == v.samples.len()
            - v.step_size,
        v.samples.len() < v.step_size ==> v.advanced().samples.len() == 0,
{
}

} // verus!
