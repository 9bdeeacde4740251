use vstd::prelude::*;

/// Case-insensitive chars and strs
pub mod case_insensitive;

verus! {

/// Errors for [`try_collect_into_array`]
#[derive(Clone, Copy, Debug, PartialEq, Eq, Structural)]
pub enum CollectIntoArrayError {
    /// The array to collect into was not large enough
    ArrayNotLargeEnough,
}

/// Try to collect the items into an array, with `None` after the last of them
///
/// # Errors
/// See [`CollectIntoArrayError`]
pub fn try_collect_into_array<const N: usize, T: Copy>(items: &Vec<T>) -> (array: Result<
    [Option<T>; N],
    CollectIntoArrayError,
>)
    ensures
        items.len() > N ==> array == Err::<[Option<T>; N], CollectIntoArrayError>(
            CollectIntoArrayError::ArrayNotLargeEnough,
        ),
        items.len() <= N ==> array is Ok && forall|i: int|
            0 <= i < N ==> #[trigger] array->Ok_0[i] == if i < items.len() {
                Some(items[i])
            } else {
                None
            },
{
    if items.len() > N {
        return Err(CollectIntoArrayError::ArrayNotLargeEnough);
    }
    let mut array: [Option<T>; N] = [None;N];
    let mut index: usize = 0;
    while index < items.len()
        invariant
            index <= items.len() <= N,
            forall|i: int|
                0 <= i < N ==> #[trigger] array[i] == if i < index {
                    Some(items[i])
                } else {
                    None
                },
        decreases items.len() - index,
    {
        array[index] = Some(items[index]);
        index += 1;
    }
    Ok(array)
}

} // verus!
