use crate::computer::{Computer, Machine, State};
use crate::errors::ErrorWithLocation;
use crate::num3::ThreeDigitNumber;
use std::collections::VecDeque;
use vstd::pervasive::unreached;
use vstd::prelude::*;

mod alloc_tester;

pub use alloc_tester::{
    coded, codes_of, csv_case, csv_test, csv_tests, listed, numbers_of, CSVError,
    CSVErrorWithLineNumber, Case, EntryError, StdTest,
};

verus! {

/// Tests for programs
#[derive(Clone, Debug, PartialEq, Eq)]
pub struct Test<'a> {
    pub name: Option<&'a str>,
    pub max_cycles: u32,
    pub inputs: VecDeque<ThreeDigitNumber>,
    pub outputs: VecDeque<ThreeDigitNumber>,
    pub char_inputs: VecDeque<ThreeDigitNumber>,
    pub char_outputs: VecDeque<ThreeDigitNumber>,
}

/// Errors for tests
#[derive(Clone, Copy, Debug, PartialEq, Eq)]
pub enum TestError {
    /// The number of cycles exceeded `max_cycles`
    RunOutOfCycles,
    /// The computer requested more inputs than expected
    RunOutOfInputs,
    /// The computer gave more outputs than expected
    RunOutOfOutputs(ThreeDigitNumber),
    /// The computer requested more char inputs than expected
    RunOutOfCharInputs,
    /// The computer gave more char outputs than expected
    RunOutOfCharOutputs(ThreeDigitNumber, Option<char>),
    /// An output from the computer did not match the expected output
    DifferentOutput { expected: ThreeDigitNumber, got: ThreeDigitNumber },
    /// A char output from the computer did not match the expected char output
    DifferentCharOutput {
        expected: ThreeDigitNumber,
        expected_char: Option<char>,
        got: ThreeDigitNumber,
        got_char: Option<char>,
    },
    /// The computer requested less inputs than expected
    ExpectedMoreInputs,
    /// The computer gave less outputs than expected
    ExpectedMoreOutputs,
    /// The computer requested less char inputs than expected
    ExpectedMoreCharInputs,
    /// The computer gave less char outputs than expected
    ExpectedMoreCharOutputs,
    /// The computer errored
    ComputerError(State),
}

/// A number of cycles, to say after how many of them an error arose
#[derive(Clone, Copy, Debug, PartialEq, Eq, Structural, PartialOrd, Ord, Hash)]
pub struct AfterCycles(pub u32);

/// A test error with the number of cycles that the test had run
pub type ErrorWithCycles = ErrorWithLocation<TestError, AfterCycles>;

/// A test name, to say in which test an error arose
#[derive(Clone, Copy, Debug, PartialEq, Eq, PartialOrd, Ord, Hash)]
pub struct TestName<'a>(pub &'a str);

/// A test error with the number of cycles and the name of the test, if it has one
pub type ErrorWithOptionalTestName<'a> = ErrorWithLocation<ErrorWithCycles, Option<TestName<'a>>>;

/// What a test still expects of a program, as plain values
pub struct Script {
    /// The numbers that the program will be given, in their order
    pub inputs: Seq<int>,
    /// The numbers that the program has to give, in their order
    pub outputs: Seq<int>,
    /// The characters that the program will be given, in their order
    pub char_inputs: Seq<int>,
    /// The characters that the program has to give, in their order
    pub char_outputs: Seq<int>,
}

/// A computer and a script after one step of a test, and how the step went:
/// whether the program is done, or why the test has failed
pub struct Stepped {
    pub machine: Machine,
    pub script: Script,
    pub outcome: Result<bool, TestError>,
}

/// A computer after a test, and how it went: the number of cycles that the
/// program took, or the error with the number of cycles before it
pub struct Ran {
    pub machine: Machine,
    pub outcome: Result<int, (int, TestError)>,
}

/// The values of the numbers in a queue, front first
pub open spec fn values(queue: VecDeque<ThreeDigitNumber>) -> Seq<int> {
    Seq::new(queue@.len(), |i: int| queue@[i]@)
}

/// The character with a code
pub open spec fn char_of(code: int) -> Option<char> {
    if 0 <= code <= 0xd7ff || 0xe000 <= code <= 0x10ffff {
        Some(code as char)
    } else {
        None
    }
}

/// One step of a test: the computer takes a step, and where it then waits
/// for an input it is given the next one of the script, and where it waits
/// to output, its output is taken and held against the next one of the script.
pub open spec fn stepped(machine: Machine, script: Script) -> Stepped {
    let next = machine.step();
    let resumed = Machine { state: State::Running, ..next };
    let got = ThreeDigitNumber::of(next.register);
    match next.state {
        State::Running => Stepped { machine: next, script, outcome: Ok(false) },
        State::AwaitingInput => if script.inputs.len() == 0 {
            Stepped { machine: next, script, outcome: Err(TestError::RunOutOfInputs) }
        } else {
            Stepped {
                machine: Machine { register: script.inputs[0], ..resumed },
                script: Script { inputs: script.inputs.drop_first(), ..script },
                outcome: Ok(false),
            }
        },
        State::AwaitingOutput => if script.outputs.len() == 0 {
            Stepped { machine: resumed, script, outcome: Err(TestError::RunOutOfOutputs(got)) }
        } else {
            Stepped {
                machine: resumed,
                script: Script { outputs: script.outputs.drop_first(), ..script },
                outcome: if next.register != script.outputs[0] {
                    Err(
                        TestError::DifferentOutput {
                            expected: ThreeDigitNumber::of(script.outputs[0]),
                            got,
                        },
                    )
                } else {
                    Ok(false)
                },
            }
        },
        State::AwaitingCharInput => if script.char_inputs.len() == 0 {
            Stepped { machine: next, script, outcome: Err(TestError::RunOutOfCharInputs) }
        } else {
            Stepped {
                machine: Machine { register: script.char_inputs[0], ..resumed },
                script: Script { char_inputs: script.char_inputs.drop_first(), ..script },
                outcome: Ok(false),
            }
        },
        State::AwaitingCharOutput => if script.char_outputs.len() == 0 {
            Stepped {
                machine: resumed,
                script,
                outcome: Err(TestError::RunOutOfCharOutputs(got, char_of(next.register))),
            }
        } else {
            Stepped {
                machine: resumed,
                script: Script { char_outputs: script.char_outputs.drop_first(), ..script },
                outcome: if next.register != script.char_outputs[0] {
                    Err(
                        TestError::DifferentCharOutput {
                            expected: ThreeDigitNumber::of(script.char_outputs[0]),
                            expected_char: char_of(script.char_outputs[0]),
                            got,
                            got_char: char_of(next.register),
                        },
                    )
                } else {
                    Ok(false)
                },
            }
        },
        State::Halted | State::ReachedEnd => Stepped { machine: next, script, outcome: Ok(true) },
        State::InvalidInstruction => Stepped {
            machine: next,
            script,
            outcome: Err(TestError::ComputerError(next.state)),
        },
    }
}

/// What is wrong with a script when its program is done: an input or an
/// output that the program did not come to
pub open spec fn unused(script: Script) -> Option<TestError> {
    if script.inputs.len() > 0 {
        Some(TestError::ExpectedMoreInputs)
    } else if script.outputs.len() > 0 {
        Some(TestError::ExpectedMoreOutputs)
    } else if script.char_inputs.len() > 0 {
        Some(TestError::ExpectedMoreCharInputs)
    } else if script.char_outputs.len() > 0 {
        Some(TestError::ExpectedMoreCharOutputs)
    } else {
        None
    }
}

/// A test from the time that it has run for `cycles` cycles: it takes steps
/// until one fails, until the program is done, or until it has run for
/// `max_cycles` cycles, which is a failure too. When the program is done the
/// script must be used up.
pub open spec fn ran(machine: Machine, script: Script, max_cycles: int, cycles: int) -> Ran
    decreases max_cycles - cycles,
{
    if cycles >= max_cycles {
        Ran { machine, outcome: Err((cycles, TestError::RunOutOfCycles)) }
    } else {
        let step = stepped(machine, script);
        match step.outcome {
            Err(error) => Ran { machine: step.machine, outcome: Err((cycles, error)) },
            Ok(false) => ran(step.machine, step.script, max_cycles, cycles + 1),
            Ok(true) => Ran {
                machine: step.machine,
                outcome: match unused(step.script) {
                    Some(error) => Err((cycles + 1, error)),
                    None => Ok(cycles + 1),
                },
            },
        }
    }
}

/// A test of a program that keeps running without input or output for longer
/// than the test allows fails when it has run for exactly `max_cycles` cycles.
pub proof fn lemma_runs_out_of_cycles(machine: Machine, script: Script, max_cycles: int, cycles: int)
    requires
        0 <= cycles <= max_cycles,
        forall|count: nat|
            count <= max_cycles - cycles ==> (#[trigger] machine.steps(count)).state
                == State::Running,
    ensures
        ran(machine, script, max_cycles, cycles).outcome == Err::<int, (int, TestError)>(
            (max_cycles, TestError::RunOutOfCycles),
        ),
    decreases max_cycles - cycles,
{
    if cycles < max_cycles {
        let next = machine.step();
        assert(machine.steps(1) == next.steps(0));
        assert(next.steps(0) == next);
        assert forall|count: nat| count <= max_cycles - (cycles + 1) implies (#[trigger] next.steps(
            count,
        )).state == State::Running by {
            assert(machine.steps(count + 1) == next.steps(count));
        }
        lemma_runs_out_of_cycles(next, script, max_cycles, cycles + 1);
    }
}

/// The name of a test as the place of an error
pub open spec fn named<'a>(name: Option<&'a str>) -> Option<TestName<'a>> {
    match name {
        Some(name) => Some(TestName(name)),
        None => None,
    }
}

/// `char::from_u32` of the standard library gives the character with the
/// given code, and `None` where there is no such character: for the codes
/// from 0xD800 to 0xDFFF and for those above 0x10FFFF. This is taken on trust.
pub assume_specification[ char::from_u32 ](code: u32) -> (c: Option<char>)
    ensures
        c == char_of(code as int),
;

impl<'a> View for Test<'a> {
    type V = Script;

    open spec fn view(&self) -> Script {
        Script {
            inputs: values(self.inputs),
            outputs: values(self.outputs),
            char_inputs: values(self.char_inputs),
            char_outputs: values(self.char_outputs),
        }
    }
}

/// Takes the number at the front of a queue
fn take_next(queue: &mut VecDeque<ThreeDigitNumber>) -> (next: Option<ThreeDigitNumber>)
    ensures
        match next {
            Some(next) => values(*old(queue)).len() > 0 && next@ == values(*old(queue))[0]
                && values(*final(queue)) == values(*old(queue)).drop_first(),
            None => values(*old(queue)).len() == 0 && values(*final(queue)) == values(*old(queue)),
        },
{
    let next = queue.pop_front();
    assert(next is Some ==> values(*queue) =~= values(*old(queue)).drop_first());
    next
}

impl<'a> Test<'a> {
    /// The error of a test with its place
    fn located(&self, cycles: u32, error: TestError) -> (located: ErrorWithOptionalTestName<'a>)
        ensures
            located == ErrorWithLocation(
                named(self.name),
                ErrorWithLocation(AfterCycles(cycles), error),
            ),
    {
        let name = match self.name {
            Some(name) => Some(TestName(name)),
            None => None,
        };
        ErrorWithLocation(name, ErrorWithLocation(AfterCycles(cycles), error))
    }

    /// Run one step of a test.
    /// Only use this if you know what you are doing!
    /// You probably want `run` instead
    ///
    /// # Errors
    /// See [`TestError`]
    pub fn step(computer: &mut Computer, test: &mut Self, cycles: &mut u32) -> (done: Result<
        bool,
        ErrorWithOptionalTestName<'a>,
    >)
        requires
            *old(cycles) == old(test).max_cycles || *old(cycles) < u32::MAX,
        ensures
            final(test).name == old(test).name,
            final(test).max_cycles == old(test).max_cycles,
            *old(cycles) == old(test).max_cycles ==> {
                &&& done == Err::<bool, ErrorWithOptionalTestName<'a>>(
                    ErrorWithLocation(
                        named(old(test).name),
                        ErrorWithLocation(AfterCycles(*old(cycles)), TestError::RunOutOfCycles),
                    ),
                )
                &&& final(computer)@ == old(computer)@
                &&& final(test)@ == old(test)@
                &&& *final(cycles) == *old(cycles)
            },
            *old(cycles) != old(test).max_cycles ==> {
                let step = stepped(old(computer)@, old(test)@);
                &&& final(computer)@ == step.machine
                &&& final(test)@ == step.script
                &&& match step.outcome {
                    Ok(finished) => done == Ok::<bool, ErrorWithOptionalTestName<'a>>(finished)
                        && *final(cycles) == *old(cycles) + 1,
                    Err(error) => done == Err::<bool, ErrorWithOptionalTestName<'a>>(
                        ErrorWithLocation(
                            named(old(test).name),
                            ErrorWithLocation(AfterCycles(*old(cycles)), error),
                        ),
                    ) && *final(cycles) == *old(cycles),
                }
            },
    {
        broadcast use ThreeDigitNumber::lemma_of_view;

        if *cycles == test.max_cycles {
            return Err(test.located(*cycles, TestError::RunOutOfCycles));
        }
        let done = match computer.step() {
            State::Running => false,
            State::AwaitingInput => {
                match take_next(&mut test.inputs) {
                    Some(input) => {
                        match computer.input(input) {
                            Ok(()) => {},
                            Err(_) => unreached(),
                        }
                    },
                    None => {
                        return Err(test.located(*cycles, TestError::RunOutOfInputs));
                    },
                }
                false
            },
            State::AwaitingOutput => {
                let output = match computer.output() {
                    Ok(output) => output,
                    Err(_) => unreached(),
                };
                match take_next(&mut test.outputs) {
                    Some(expected) => {
                        if u16::from(output) != u16::from(expected) {
                            return Err(
                                test.located(
                                    *cycles,
                                    TestError::DifferentOutput { expected, got: output },
                                ),
                            );
                        }
                    },
                    None => {
                        return Err(test.located(*cycles, TestError::RunOutOfOutputs(output)));
                    },
                }
                false
            },
            State::AwaitingCharInput => {
                match take_next(&mut test.char_inputs) {
                    Some(input) => {
                        match computer.input_char(input) {
                            Ok(()) => {},
                            Err(_) => unreached(),
                        }
                    },
                    None => {
                        return Err(test.located(*cycles, TestError::RunOutOfCharInputs));
                    },
                }
                false
            },
            State::AwaitingCharOutput => {
                let output = match computer.output_char() {
                    Ok(output) => output,
                    Err(_) => unreached(),
                };
                let output_char = char::from_u32(u16::from(output) as u32);
                match take_next(&mut test.char_outputs) {
                    Some(expected) => {
                        if u16::from(output) != u16::from(expected) {
                            return Err(
                                test.located(
                                    *cycles,
                                    TestError::DifferentCharOutput {
                                        expected,
                                        expected_char: char::from_u32(u16::from(expected) as u32),
                                        got: output,
                                        got_char: output_char,
                                    },
                                ),
                            );
                        }
                    },
                    None => {
                        return Err(
                            test.located(
                                *cycles,
                                TestError::RunOutOfCharOutputs(output, output_char),
                            ),
                        );
                    },
                }
                false
            },
            State::Halted | State::ReachedEnd => true,
            State::InvalidInstruction => {
                return Err(
                    test.located(*cycles, TestError::ComputerError(State::InvalidInstruction)),
                );
            },
        };
        *cycles += 1;
        Ok(done)
    }

    /// Run the test with the given memory
    ///
    /// # Errors
    /// See [`TestError`]
    pub fn run(self, computer: &mut Computer) -> (cycles: Result<
        u32,
        ErrorWithOptionalTestName<'a>,
    >)
        ensures
            final(computer)@ == ran(old(computer)@, self@, self.max_cycles as int, 0).machine,
            match cycles {
                Ok(cycles) => ran(old(computer)@, self@, self.max_cycles as int, 0).outcome == Ok::<
                    int,
                    (int, TestError),
                >(cycles as int),
                Err(error) => ran(old(computer)@, self@, self.max_cycles as int, 0).outcome == Err::<
                    int,
                    (int, TestError),
                >((error.1.0.0 as int, error.1.1)) && error.0 == named(self.name),
            },
    {
        let ghost script = self@;
        let ghost name = self.name;
        let ghost max_cycles = self.max_cycles as int;
        let ghost start = computer@;
        let mut test = self;
        let mut cycles: u32 = 0;
        loop
            invariant_except_break
                ran(start, script, max_cycles, 0) == ran(
                    computer@,
                    test@,
                    max_cycles,
                    cycles as int,
                ),
            invariant
                cycles <= test.max_cycles,
                test.name == name,
                test.max_cycles == max_cycles,
                start == old(computer)@,
                script == self@,
                name == self.name,
                max_cycles == self.max_cycles,
            ensures
                ran(start, script, max_cycles, 0) == (Ran {
                    machine: computer@,
                    outcome: match unused(test@) {
                        Some(error) => Err((cycles as int, error)),
                        None => Ok(cycles as int),
                    },
                }),
            decreases test.max_cycles - cycles,
        {
            match Self::step(computer, &mut test, &mut cycles) {
                Ok(false) => {},
                Ok(true) => {
                    break ;
                },
                Err(error) => {
                    return Err(error);
                },
            }
        }

        // Make sure all the inputs and outputs were used
        if test.inputs.len() > 0 {
            return Err(test.located(cycles, TestError::ExpectedMoreInputs));
        }
        if test.outputs.len() > 0 {
            return Err(test.located(cycles, TestError::ExpectedMoreOutputs));
        }
        if test.char_inputs.len() > 0 {
            return Err(test.located(cycles, TestError::ExpectedMoreCharInputs));
        }
        if test.char_outputs.len() > 0 {
            return Err(test.located(cycles, TestError::ExpectedMoreCharOutputs));
        }
        Ok(cycles)
    }
}

} // verus!
