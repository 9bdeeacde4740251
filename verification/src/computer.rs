use crate::assembly::InstructionSet;
use crate::num3::{wrapping_difference, wrapping_sum, ThreeDigitNumber};
use vstd::prelude::*;

verus! {

/// The words that a [`Computer`] works on, by address
pub type Memory = [ThreeDigitNumber; 100];

/// The states for [`Computer`]s
#[derive(Clone, Copy, Debug, PartialEq, Eq, Structural)]
pub enum State {
    Running,
    AwaitingInput,
    AwaitingOutput,
    AwaitingCharInput,
    AwaitingCharOutput,
    Halted,
    ReachedEnd,
    InvalidInstruction,
}

impl Default for State {
    fn default() -> (state: Self)
        ensures
            state == State::Running,
    {
        State::Running
    }
}

/// Errors for [`Computer`] input and output
#[derive(Clone, Copy, Debug, PartialEq, Eq, Structural)]
pub enum Error {
    /// The computer was not waiting for an input, but one was given
    UnexpectedInput,
    /// The computer was not waiting to output, but one was requested
    NoOutput,
    /// The computer was not waiting for a char input, but one was given
    UnexpectedCharInput,
    /// The computer was not waiting to output a char, but one was requested
    NoCharOutput,
}

/// Errors for `set_counter`
#[derive(Clone, Copy, Debug, PartialEq, Eq, Structural)]
pub enum SetCounterError {
    /// The given value is too large (> 100)
    TooLarge,
}

/// The values of a memory's words, by address
pub open spec fn memory_values(memory: Memory) -> Seq<int> {
    Seq::new(100, |address: int| memory[address]@)
}

/// What a [`Computer`] holds, as plain values
pub struct Machine {
    pub state: State,
    /// The 100 words, each from 0 to 999
    pub memory: Seq<int>,
    /// The address of the next instruction, from 0 to 100
    pub counter: int,
    pub register: int,
    pub negative_flag: bool,
    /// Whether a program has enabled the instructions for characters
    pub extended_mode_flag: bool,
    /// The instructions that the machine knows at all
    pub instruction_set: InstructionSet,
}

impl Machine {
    /// A machine that has just been given its memory
    pub open spec fn fresh(memory: Seq<int>, instruction_set: InstructionSet) -> Machine {
        Machine {
            state: State::Running,
            memory,
            counter: 0,
            register: 0,
            negative_flag: false,
            extended_mode_flag: false,
            instruction_set,
        }
    }

    /// The machine takes and gives characters: it knows the instructions for
    /// them, and a program has enabled them
    pub open spec fn extended(self) -> bool {
        self.instruction_set == InstructionSet::Extended && self.extended_mode_flag
    }

    /// The values are those of some [`Computer`]
    pub open spec fn valid(self) -> bool {
        &&& self.memory.len() == 100
        &&& forall|address: int| 0 <= address < 100 ==> 0 <= #[trigger] self.memory[address] < 1000
        &&& 0 <= self.counter <= 100
        &&& 0 <= self.register < 1000
    }

    /// The machine with another state and the counter moved to the next word
    pub open spec fn advance(self, state: State) -> Machine {
        Machine { state, counter: self.counter + 1, ..self }
    }

    /// The machine after the word at its counter has been carried out
    pub open spec fn execute(self) -> Machine {
        let word = self.memory[self.counter];
        let op_code = word / 100;
        let address = word % 100;
        let operand = self.memory[address];
        if op_code == 1 {
            Machine { register: wrapping_sum(self.register, operand), ..self }.advance(
                State::Running,
            )
        } else if op_code == 2 {
            Machine {
                register: wrapping_difference(self.register, operand),
                negative_flag: self.register < operand,
                ..self
            }.advance(State::Running)
        } else if op_code == 3 {
            Machine { memory: self.memory.update(address, self.register), ..self }.advance(
                State::Running,
            )
        } else if op_code == 5 {
            Machine { register: operand, ..self }.advance(State::Running)
        } else if op_code == 6 {
            Machine { counter: address, ..self }
        } else if op_code == 7 {
            if self.register == 0 {
                Machine { counter: address, ..self }
            } else {
                self.advance(State::Running)
            }
        } else if op_code == 8 {
            if !self.negative_flag {
                Machine { counter: address, ..self }
            } else {
                self.advance(State::Running)
            }
        } else if op_code == 9 {
            if address == 1 {
                self.advance(State::AwaitingInput)
            } else if address == 2 {
                self.advance(State::AwaitingOutput)
            } else if address == 11 && self.extended() {
                self.advance(State::AwaitingCharInput)
            } else if address == 12 && self.extended() {
                self.advance(State::AwaitingCharOutput)
            } else {
                Machine { state: State::InvalidInstruction, ..self }
            }
        } else if op_code == 0 {
            // Halting and storing the data word zero are one and the same word
            if address == 10 && self.instruction_set == InstructionSet::Extended {
                Machine { extended_mode_flag: true, ..self }.advance(State::Running)
            } else {
                self.advance(State::Halted)
            }
        } else {
            Machine { state: State::InvalidInstruction, ..self }
        }
    }

    /// The machine after one call of `step`
    pub open spec fn step(self) -> Machine {
        if self.state != State::Running {
            self
        } else if self.counter == 100 {
            Machine { state: State::ReachedEnd, ..self }
        } else {
            self.execute()
        }
    }

    /// The machine after a number of calls of `step`
    pub open spec fn steps(self, count: nat) -> Machine
        decreases count,
    {
        if count == 0 {
            self
        } else {
            self.step().steps((count - 1) as nat)
        }
    }

    /// The machine stops running at some time, if only `step` is called on it
    pub open spec fn stops(self) -> bool {
        exists|count: nat| (#[trigger] self.steps(count)).state != State::Running
    }

    /// Stepping a machine that is not running, however often, changes nothing:
    /// not its state, its memory, its register nor anything else.
    pub proof fn lemma_steps_when_stopped(self, count: nat)
        requires
            self.state != State::Running,
        ensures
            self.step() == self,
            self.steps(count) == self,
        decreases count,
    {
        if count > 0 {
            self.lemma_steps_when_stopped((count - 1) as nat);
        }
    }

    /// Stepping some times and then some more is stepping that many times in all
    pub proof fn lemma_steps_add(self, first: nat, second: nat)
        ensures
            self.steps(first).steps(second) == self.steps(first + second),
        decreases first,
    {
        if first > 0 {
            self.step().lemma_steps_add((first - 1) as nat, second);
        }
    }

    /// However many steps it takes to find a machine stopped, it is found the same
    pub proof fn lemma_stopped_once(self, first: nat, second: nat)
        requires
            self.steps(first).state != State::Running,
            self.steps(second).state != State::Running,
        ensures
            self.steps(first) == self.steps(second),
    {
        if first <= second {
            self.lemma_steps_add(first, (second - first) as nat);
            self.steps(first).lemma_steps_when_stopped((second - first) as nat);
        } else {
            self.lemma_steps_add(second, (first - second) as nat);
            self.steps(second).lemma_steps_when_stopped((first - second) as nat);
        }
    }

    /// A step keeps every word, the register and the counter within their bounds
    pub proof fn lemma_step_valid(self)
        requires
            self.valid(),
        ensures
            self.step().valid(),
    {
    }
}

/// The address of the next instruction: one of the memory, or 100 for its end
#[derive(Clone, Copy, Debug, PartialEq, Eq)]
struct Counter(usize);

impl Counter {
    #[verifier::type_invariant]
    closed spec fn in_range(self) -> bool {
        self.0 <= 100
    }
}

/// The computer that runs programs
#[derive(Clone, Copy, Debug, PartialEq, Eq)]
pub struct Computer {
    state: State,
    memory: Memory,
    counter: Counter,
    register: ThreeDigitNumber,
    negative_flag: bool,
    extended_mode_flag: bool,
    instruction_set: InstructionSet,
}

impl View for Computer {
    type V = Machine;

    closed spec fn view(&self) -> Machine {
        Machine {
            state: self.state,
            memory: memory_values(self.memory),
            counter: self.counter.0 as int,
            register: self.register@,
            negative_flag: self.negative_flag,
            extended_mode_flag: self.extended_mode_flag,
            instruction_set: self.instruction_set,
        }
    }
}

impl Computer {
    /// Create a new [`Computer`] from [`Memory`], with the extended set of instructions
    pub fn new(memory: Memory) -> (computer: Self)
        ensures
            computer@ == Machine::fresh(memory_values(memory), InstructionSet::Extended),
    {
        Self::with_instruction_set(memory, InstructionSet::Extended)
    }

    /// Create a new [`Computer`] from [`Memory`], with the given set of instructions
    pub fn with_instruction_set(memory: Memory, instruction_set: InstructionSet) -> (computer: Self)
        ensures
            computer@ == Machine::fresh(memory_values(memory), instruction_set),
    {
        Self {
            state: State::Running,
            memory,
            counter: Counter(0),
            register: ThreeDigitNumber::zero(),
            negative_flag: false,
            extended_mode_flag: false,
            instruction_set,
        }
    }

    /// Run one instruction on the computer
    pub fn step(&mut self) -> (state: State)
        ensures
            final(self)@ == old(self)@.step(),
            state == final(self)@.state,
    {
        proof {
            use_type_invariant(&self.counter);
        }
        if self.state != State::Running {
            return self.state;
        }
        if self.counter.0 == 100 {
            self.state = State::ReachedEnd;
            return self.state;
        }
        let instruction = u16::from(self.memory[self.counter.0]);
        let op_code = instruction / 100;
        let data = (instruction % 100) as usize;
        let operand = self.memory[data];
        let extension = match self.instruction_set {
            InstructionSet::Standard => false,
            InstructionSet::Extended => true,
        };

        if op_code == 1 {
            self.register = self.register + operand;
        } else if op_code == 2 {
            let (register, negative_flag) = self.register - operand;
            self.register = register;
            self.negative_flag = negative_flag;
        } else if op_code == 3 {
            self.memory[data] = self.register;
            assert(memory_values(self.memory) =~= memory_values(old(self).memory).update(
                data as int,
                self.register@,
            ));
        } else if op_code == 5 {
            self.register = operand;
        } else if op_code == 6 {
            self.counter = Counter(data);
            return self.state;
        } else if op_code == 7 {
            if u16::from(self.register) == 0 {
                self.counter = Counter(data);
                return self.state;
            }
        } else if op_code == 8 {
            if !self.negative_flag {
                self.counter = Counter(data);
                return self.state;
            }
        } else if op_code == 9 {
            if data == 1 {
                self.state = State::AwaitingInput;
            } else if data == 2 {
                self.state = State::AwaitingOutput;
            } else if data == 11 && extension && self.extended_mode_flag {
                self.state = State::AwaitingCharInput;
            } else if data == 12 && extension && self.extended_mode_flag {
                self.state = State::AwaitingCharOutput;
            } else {
                self.state = State::InvalidInstruction;
                return self.state;
            }
        } else if op_code == 0 {
            if data == 10 && extension {
                self.extended_mode_flag = true;
            } else {
                self.state = State::Halted;
            }
        } else {
            self.state = State::InvalidInstruction;
            return self.state;
        }
        self.counter = Counter(self.counter.0 + 1);
        self.state
    }

    /// Run the [`Computer`] until its state is not [`State::Running`]
    ///
    /// A program that never stops keeps this function running for ever, so
    /// the caller has to know that it stops.
    pub fn run(&mut self) -> (state: State)
        requires
            old(self)@.stops(),
        ensures
            state == final(self)@.state,
            state != State::Running,
            forall|count: nat|
                (#[trigger] old(self)@.steps(count)).state != State::Running ==> final(self)@
                    == old(self)@.steps(count),
    {
        let ghost start = self@;
        let ghost total: nat = choose|count: nat|
            (#[trigger] start.steps(count)).state != State::Running;
        let ghost mut fuel: nat = total;
        loop
            invariant
                self@.steps(fuel) == start.steps(total),
                start.steps(total).state != State::Running,
                start == old(self)@,
            decreases fuel,
        {
            let ghost before = self@;
            let state = self.step();
            if state != State::Running {
                proof {
                    if before.state != State::Running {
                        before.lemma_steps_when_stopped(fuel);
                    } else {
                        self@.lemma_steps_when_stopped((fuel - 1) as nat);
                    }
                    assert forall|count: nat| (#[trigger] start.steps(count)).state
                        != State::Running implies self@ == start.steps(count) by {
                        start.lemma_stopped_once(count, total);
                    }
                }
                return state;
            }
            proof {
                fuel = (fuel - 1) as nat;
            }
        }
    }

    /// Give an input to the [`Computer`]
    ///
    /// # Errors
    /// [`Error::UnexpectedInput`] - the computer is not awaiting an input
    pub fn input(&mut self, input: ThreeDigitNumber) -> (result: Result<(), Error>)
        ensures
            old(self)@.state == State::AwaitingInput ==> result is Ok && final(self)@ == (Machine {
                state: State::Running,
                register: input@,
                ..old(self)@
            }),
            old(self)@.state != State::AwaitingInput ==> result == Err::<(), Error>(
                Error::UnexpectedInput,
            ) && final(self)@ == old(self)@,
    {
        if self.state == State::AwaitingInput {
            self.register = input;
            self.state = State::Running;
            Ok(())
        } else {
            Err(Error::UnexpectedInput)
        }
    }

    /// Take an output from the [`Computer`]
    ///
    /// # Errors
    /// [`Error::NoOutput`] - there is no output to be taken
    pub fn output(&mut self) -> (result: Result<ThreeDigitNumber, Error>)
        ensures
            old(self)@.state == State::AwaitingOutput ==> result is Ok && result->Ok_0@ == old(
                self,
            )@.register && final(self)@ == (Machine { state: State::Running, ..old(self)@ }),
            old(self)@.state != State::AwaitingOutput ==> result == Err::<ThreeDigitNumber, Error>(
                Error::NoOutput,
            ) && final(self)@ == old(self)@,
    {
        if self.state == State::AwaitingOutput {
            self.state = State::Running;
            Ok(self.register)
        } else {
            Err(Error::NoOutput)
        }
    }

    /// Give a char input to the [`Computer`]
    ///
    /// # Errors
    /// [`Error::UnexpectedCharInput`] - the computer is not awaiting a char input
    pub fn input_char(&mut self, input: ThreeDigitNumber) -> (result: Result<(), Error>)
        ensures
            old(self)@.state == State::AwaitingCharInput ==> result is Ok && final(self)@
                == (Machine { state: State::Running, register: input@, ..old(self)@ }),
            old(self)@.state != State::AwaitingCharInput ==> result == Err::<(), Error>(
                Error::UnexpectedCharInput,
            ) && final(self)@ == old(self)@,
    {
        if self.state == State::AwaitingCharInput {
            self.register = input;
            self.state = State::Running;
            Ok(())
        } else {
            Err(Error::UnexpectedCharInput)
        }
    }

    /// Take a char output from the [`Computer`]
    ///
    /// # Errors
    /// [`Error::NoCharOutput`] - there is no char output to be taken
    pub fn output_char(&mut self) -> (result: Result<ThreeDigitNumber, Error>)
        ensures
            old(self)@.state == State::AwaitingCharOutput ==> result is Ok && result->Ok_0@ == old(
                self,
            )@.register && final(self)@ == (Machine { state: State::Running, ..old(self)@ }),
            old(self)@.state != State::AwaitingCharOutput ==> result == Err::<
                ThreeDigitNumber,
                Error,
            >(Error::NoCharOutput) && final(self)@ == old(self)@,
    {
        if self.state == State::AwaitingCharOutput {
            self.state = State::Running;
            Ok(self.register)
        } else {
            Err(Error::NoCharOutput)
        }
    }

    // Functions that take `computer` rather than `self` are not meant for
    // normal use: they reach into a machine in the middle of its run.

    /// Get the [`Computer`]'s current [`State`]
    pub fn state(&self) -> (state: State)
        ensures
            state == self@.state,
    {
        self.state
    }

    /// Set a [`Computer`]'s [`State`]
    pub fn set_state(computer: &mut Self, value: State)
        ensures
            final(computer)@ == (Machine { state: value, ..old(computer)@ }),
    {
        computer.state = value;
    }

    /// Reset the [`Computer`] without resetting the [`Memory`]
    pub fn reset(&mut self)
        ensures
            final(self)@ == Machine::fresh(old(self)@.memory, old(self)@.instruction_set),
    {
        self.state = State::Running;
        self.counter = Counter(0);
        self.register = ThreeDigitNumber::zero();
        self.negative_flag = false;
        self.extended_mode_flag = false;
    }

    /// Get the [`Computer`]'s [`Memory`]
    pub fn get_memory(&self) -> (memory: &Memory)
        ensures
            memory_values(*memory) == self@.memory,
    {
        &self.memory
    }

    /// Mutably get a [`Computer`]'s [`Memory`]
    pub fn get_memory_mut(computer: &mut Self) -> (memory: &mut Memory)
        ensures
            memory_values(*memory) == old(computer)@.memory,
            final(computer)@ == (Machine {
                memory: memory_values(*final(memory)),
                ..old(computer)@
            }),
    {
        &mut computer.memory
    }

    /// Get the [`Computer`]'s counter
    pub fn counter(&self) -> (counter: usize)
        ensures
            counter == self@.counter,
            counter <= 100,
    {
        proof {
            use_type_invariant(&self.counter);
        }
        self.counter.0
    }

    /// Set a [`Computer`]'s counter
    ///
    /// # Errors
    /// See [`SetCounterError`]
    pub fn set_counter(computer: &mut Self, value: usize) -> (result: Result<(), SetCounterError>)
        ensures
            value <= 100 ==> result is Ok && final(computer)@ == (Machine {
                counter: value as int,
                ..old(computer)@
            }),
            value > 100 ==> result == Err::<(), SetCounterError>(SetCounterError::TooLarge)
                && final(computer)@ == old(computer)@,
    {
        if value > 100 {
            Err(SetCounterError::TooLarge)
        } else {
            computer.counter = Counter(value);
            Ok(())
        }
    }

    /// Get the [`Computer`]'s register
    pub fn register(&self) -> (register: ThreeDigitNumber)
        ensures
            register@ == self@.register,
    {
        self.register
    }

    /// Set a [`Computer`]'s register
    pub fn set_register(computer: &mut Self, value: ThreeDigitNumber)
        ensures
            final(computer)@ == (Machine { register: value@, ..old(computer)@ }),
    {
        computer.register = value;
    }

    /// Get the [`Computer`]'s negative flag
    pub fn negative_flag(&self) -> (flag: bool)
        ensures
            flag == self@.negative_flag,
    {
        self.negative_flag
    }

    /// Set a [`Computer`]'s negative flag
    pub fn set_negative_flag(computer: &mut Self, value: bool)
        ensures
            final(computer)@ == (Machine { negative_flag: value, ..old(computer)@ }),
    {
        computer.negative_flag = value;
    }

    /// Get the [`Computer`]'s extended mode flag
    pub fn extended_mode_flag(&self) -> (flag: bool)
        ensures
            flag == self@.extended_mode_flag,
    {
        self.extended_mode_flag
    }

    /// Get the set of instructions that the [`Computer`] knows
    pub fn instruction_set(&self) -> (instruction_set: InstructionSet)
        ensures
            instruction_set == self@.instruction_set,
    {
        self.instruction_set
    }

    /// Set a [`Computer`]'s extended mode flag
    pub fn set_extended_mode_flag(computer: &mut Self, value: bool)
        ensures
            final(computer)@ == (Machine { extended_mode_flag: value, ..old(computer)@ }),
    {
        computer.extended_mode_flag = value;
    }
}

} // verus!
