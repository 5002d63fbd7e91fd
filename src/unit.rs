use vstd::prelude::*;

verus! {

/// Bytes in a kilobyte, megabyte and gigabyte under the binary convention.
pub const CONVENTIONAL_KILOBYTE: u64 = 1024;
pub const CONVENTIONAL_MEGABYTE: u64 = 1048576;
pub const CONVENTIONAL_GIGABYTE: u64 = 1073741824;

/// Bytes in a kilobyte, megabyte and gigabyte under the decimal convention.
pub const DECIMAL_KILOBYTE: u64 = 1000;
pub const DECIMAL_MEGABYTE: u64 = 1000000;
pub const DECIMAL_GIGABYTE: u64 = 1000000000;

/// The position of `size` among the three buckets delimited by `mega` and
/// `giga`: 0 for kilobytes, 1 for megabytes, 2 for gigabytes.
pub open spec fn bucket(size: u64, mega: u64, giga: u64) -> nat {
    if size < mega {
        0
    } else if size < giga {
        1
    } else {
        2
    }
}

/// The label shown for a bucket.
pub open spec fn bucket_label(b: nat) -> Seq<char> {
    if b == 0 {
        seq!['K', 'B']
    } else if b == 1 {
        seq!['M', 'B']
    } else {
        seq!['G', 'B']
    }
}

/// The divisor for a bucket, given the three thresholds of a convention.
pub open spec fn bucket_divisor(b: nat, kilo: u64, mega: u64, giga: u64) -> u64 {
    if b == 0 {
        kilo
    } else if b == 1 {
        mega
    } else {
        giga
    }
}

/// A unit strategy: for a byte count it picks the divisor to scale by and
/// the name of the unit shown. Both come from the same bucket.
pub trait Format {
    /// The divisor chosen for `size`.
    spec fn spec_divisor(&self, size: u64) -> u64;

    /// The unit name chosen for `size`.
    spec fn spec_name(&self, size: u64) -> Seq<char>;

    /// The appropriate divisor for a given value size.
    ///
    /// E.g., to derive the number of megabytes in a given file, divide
    /// file size by the size in bytes of one megabyte.
    fn divisor(&self, size: u64) -> (r: u64)
        ensures
            r == self.spec_divisor(size),
            r > 0,
    ;

    /// The appropriate name for a given value size.
    fn name(&self, size: u64) -> (r: &'static str)
        ensures
            r@ == self.spec_name(size),
    ;
}

/// Binary convention: a kilobyte is 1024 bytes, a megabyte 1024 kilobytes.
#[derive(Copy, Clone, Debug, Default)]
pub struct Conventional;

/// Decimal convention: a kilobyte is 1000 bytes, a megabyte 1000 kilobytes.
/// Labels are the same as under the binary convention.
#[derive(Copy, Clone, Debug, Default)]
pub struct Decimal;

/// The literal for a bucket's label.
fn label_str(b: u8) -> (r: &'static str)
    requires
        b <= 2,
    ensures
        r@ == bucket_label(b as nat),
{
    proof {
        reveal_strlit("KB");
        reveal_strlit("MB");
        reveal_strlit("GB");
    }
    if b == 0 {
        "KB"
    } else if b == 1 {
        "MB"
    } else {
        "GB"
    }
}

/// The bucket of `size` as an executable value.
fn bucket_index(size: u64, mega: u64, giga: u64) -> (r: u8)
    ensures
        r as nat == bucket(size, mega, giga),
{
    if size < mega {
        0
    } else if size < giga {
        1
    } else {
        2
    }
}

impl Format for Conventional {
    open spec fn spec_divisor(&self, size: u64) -> u64 {
        bucket_divisor(
            bucket(size, CONVENTIONAL_MEGABYTE, CONVENTIONAL_GIGABYTE),
            CONVENTIONAL_KILOBYTE,
            CONVENTIONAL_MEGABYTE,
            CONVENTIONAL_GIGABYTE,
        )
    }

    open spec fn spec_name(&self, size: u64) -> Seq<char> {
        bucket_label(bucket(size, CONVENTIONAL_MEGABYTE, CONVENTIONAL_GIGABYTE))
    }

    fn divisor(&self, size: u64) -> (r: u64) {
        if size < CONVENTIONAL_MEGABYTE {
            CONVENTIONAL_KILOBYTE
        } else if size < CONVENTIONAL_GIGABYTE {
            CONVENTIONAL_MEGABYTE
        } else {
            CONVENTIONAL_GIGABYTE
        }
    }

    fn name(&self, size: u64) -> (r: &'static str) {
        label_str(bucket_index(size, CONVENTIONAL_MEGABYTE, CONVENTIONAL_GIGABYTE))
    }
}

impl Format for Decimal {
    open spec fn spec_divisor(&self, size: u64) -> u64 {
        bucket_divisor(
            bucket(size, DECIMAL_MEGABYTE, DECIMAL_GIGABYTE),
            DECIMAL_KILOBYTE,
            DECIMAL_MEGABYTE,
            DECIMAL_GIGABYTE,
        )
    }

    open spec fn spec_name(&self, size: u64) -> Seq<char> {
        bucket_label(bucket(size, DECIMAL_MEGABYTE, DECIMAL_GIGABYTE))
    }

    fn divisor(&self, size: u64) -> (r: u64) {
        if size < DECIMAL_MEGABYTE {
            DECIMAL_KILOBYTE
        } else if size < DECIMAL_GIGABYTE {
            DECIMAL_MEGABYTE
        } else {
            DECIMAL_GIGABYTE
        }
    }

    fn name(&self, size: u64) -> (r: &'static str) {
        label_str(bucket_index(size, DECIMAL_MEGABYTE, DECIMAL_GIGABYTE))
    }
}

/// Both conventions show the same label for sizes that sit in the same
/// bucket position, although their thresholds differ.
pub proof fn lemma_labels_agree(a: u64, b: u64)
    requires
        bucket(a, CONVENTIONAL_MEGABYTE, CONVENTIONAL_GIGABYTE) == bucket(
            b,
            DECIMAL_MEGABYTE,
            DECIMAL_GIGABYTE,
        ),
    ensures
        Conventional.spec_name(a) == Decimal.spec_name(b),
{
}

} // verus!
