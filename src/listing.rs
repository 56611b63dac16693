use vstd::prelude::*;

verus! {

/// The texts of a sequence of strings.
pub open spec fn texts(v: Seq<String>) -> Seq<Seq<char>> {
    v.map_values(|s: String| s@)
}

/// Scans a listing of bucket names for `bucket_name`.
pub fn bucket_exists(bucket_names: &Vec<String>, bucket_name: &str) -> (r: bool)
    ensures
        r == texts(bucket_names@).contains(bucket_name@),
{
    contains_text(bucket_names, bucket_name)
}

/// Scans `items`, bucket names or object keys, for one equal to `item`.
pub fn contains_text(items: &Vec<String>, item: &str) -> (r: bool)
    ensures
        r == texts(items@).contains(item@),
{
    let target = String::from_str(item);
    let mut i: usize = 0;
    while i < items.len()
        invariant
            i <= items.len(),
            target@ == item@,
            forall|j: int| 0 <= j < i ==> (#[trigger] items@[j])@ != item@,
        decreases items.len() - i,
    {
        let name: &String = &items[i];
        if name.eq(&target) {
            assert(texts(items@)[i as int] == item@);
            return true;
        }
        i = i + 1;
    }
    proof {
        if texts(items@).contains(item@) {
            let j = choose|j: int|
                0 <= j < texts(items@).len() && texts(items@)[j] == item@;
            assert(items@[j]@ == item@);
        }
    }
    false
}

} // verus!
