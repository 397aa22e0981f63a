//! The set of WebAssembly proposals a conversion is asked to accept.

use vstd::prelude::*;

verus! {

/// Which proposals are switched on, as plain data.
pub struct FeatureFlags {
    /// Whether exception handling is accepted.
    pub exceptions: bool,
    /// Whether import and export of mutable globals is accepted.
    pub mutable_globals: bool,
    /// Whether saturating float-to-int conversions are accepted.
    pub sat_float_to_int: bool,
    /// Whether sign-extension operators are accepted.
    pub sign_extension: bool,
    /// Whether 128-bit SIMD is accepted.
    pub simd: bool,
    /// Whether threads and atomics are accepted.
    pub threads: bool,
    /// Whether multiple result values are accepted.
    pub multi_value: bool,
    /// Whether tail calls are accepted.
    pub tail_call: bool,
    /// Whether bulk memory operations are accepted.
    pub bulk_memory: bool,
}

/// Represents which WebAssembly features are enabled.
#[derive(Debug)]
pub struct Features {
    exceptions: bool,
    mutable_globals: bool,
    sat_float_to_int: bool,
    sign_extension: bool,
    simd: bool,
    threads: bool,
    multi_value: bool,
    tail_call: bool,
    bulk_memory: bool,
}

impl View for Features {
    type V = FeatureFlags;

    closed spec fn view(&self) -> FeatureFlags {
        FeatureFlags {
            exceptions: self.exceptions,
            mutable_globals: self.mutable_globals,
            sat_float_to_int: self.sat_float_to_int,
            sign_extension: self.sign_extension,
            simd: self.simd,
            threads: self.threads,
            multi_value: self.multi_value,
            tail_call: self.tail_call,
            bulk_memory: self.bulk_memory,
        }
    }
}

impl Clone for Features {
    fn clone(&self) -> (r: Self)
        ensures
            r@ == self@,
    {
        let mut new = Features::new();
        new.set_exceptions_enabled(self.exceptions_enabled());
        new.set_mutable_globals_enabled(self.mutable_globals_enabled());
        new.set_sat_float_to_int_enabled(self.sat_float_to_int_enabled());
        new.set_sign_extension_enabled(self.sign_extension_enabled());
        new.set_simd_enabled(self.simd_enabled());
        new.set_threads_enabled(self.threads_enabled());
        new.set_multi_value_enabled(self.multi_value_enabled());
        new.set_tail_call_enabled(self.tail_call_enabled());
        new.set_bulk_memory_enabled(self.bulk_memory_enabled());
        new
    }
}

/// The flags a fresh [`Features`] starts from: mutable globals on,
/// everything else off.
pub open spec fn default_flags() -> FeatureFlags {
    FeatureFlags {
        exceptions: false,
        mutable_globals: true,
        sat_float_to_int: false,
        sign_extension: false,
        simd: false,
        threads: false,
        multi_value: false,
        tail_call: false,
        bulk_memory: false,
    }
}

/// Every flag switched on.
pub open spec fn all_flags() -> FeatureFlags {
    FeatureFlags {
        exceptions: true,
        mutable_globals: true,
        sat_float_to_int: true,
        sign_extension: true,
        simd: true,
        threads: true,
        multi_value: true,
        tail_call: true,
        bulk_memory: true,
    }
}

impl Features {
    /// The default feature set.
    pub fn new() -> (r: Features)
        ensures
            r@ == default_flags(),
    {
        Features {
            exceptions: false,
            mutable_globals: true,
            sat_float_to_int: false,
            sign_extension: false,
            simd: false,
            threads: false,
            multi_value: false,
            tail_call: false,
            bulk_memory: false,
        }
    }

    /// Switches every feature on.
    pub fn enable_all(&mut self)
        ensures
            final(self)@ == all_flags(),
    {
        self.enable_exceptions();
        self.enable_mutable_globals();
        self.enable_sat_float_to_int();
        self.enable_sign_extension();
        self.enable_simd();
        self.enable_threads();
        self.enable_multi_value();
        self.enable_tail_call();
        self.enable_bulk_memory();
    }

    /// Whether exception handling is switched on.
    pub fn exceptions_enabled(&self) -> (b: bool)
        ensures
            b == self@.exceptions,
    {
        self.exceptions
    }

    /// Switches exception handling on and leaves the other flags alone.
    pub fn enable_exceptions(&mut self)
        ensures
            final(self)@ == (FeatureFlags { exceptions: true, ..old(self)@ }),
    {
        self.set_exceptions_enabled(true);
    }

    /// Switches exception handling off and leaves the other flags alone.
    pub fn disable_exceptions(&mut self)
        ensures
            final(self)@ == (FeatureFlags { exceptions: false, ..old(self)@ }),
    {
        self.set_exceptions_enabled(false);
    }

    /// Sets exception handling to `value` and leaves the other flags alone.
    pub fn set_exceptions_enabled(&mut self, value: bool)
        ensures
            final(self)@ == (FeatureFlags { exceptions: value, ..old(self)@ }),
    {
        self.exceptions = value;
    }

    /// Whether mutable globals is switched on.
    pub fn mutable_globals_enabled(&self) -> (b: bool)
        ensures
            b == self@.mutable_globals,
    {
        self.mutable_globals
    }

    /// Switches mutable globals on and leaves the other flags alone.
    pub fn enable_mutable_globals(&mut self)
        ensures
            final(self)@ == (FeatureFlags { mutable_globals: true, ..old(self)@ }),
    {
        self.set_mutable_globals_enabled(true);
    }

    /// Switches mutable globals off and leaves the other flags alone.
    pub fn disable_mutable_globals(&mut self)
        ensures
            final(self)@ == (FeatureFlags { mutable_globals: false, ..old(self)@ }),
    {
        self.set_mutable_globals_enabled(false);
    }

    /// Sets mutable globals to `value` and leaves the other flags alone.
    pub fn set_mutable_globals_enabled(&mut self, value: bool)
        ensures
            final(self)@ == (FeatureFlags { mutable_globals: value, ..old(self)@ }),
    {
        self.mutable_globals = value;
    }

    /// Whether saturating float-to-int conversions is switched on.
    pub fn sat_float_to_int_enabled(&self) -> (b: bool)
        ensures
            b == self@.sat_float_to_int,
    {
        self.sat_float_to_int
    }

    /// Switches saturating float-to-int conversions on and leaves the other flags alone.
    pub fn enable_sat_float_to_int(&mut self)
        ensures
            final(self)@ == (FeatureFlags { sat_float_to_int: true, ..old(self)@ }),
    {
        self.set_sat_float_to_int_enabled(true);
    }

    /// Switches saturating float-to-int conversions off and leaves the other flags alone.
    pub fn disable_sat_float_to_int(&mut self)
        ensures
            final(self)@ == (FeatureFlags { sat_float_to_int: false, ..old(self)@ }),
    {
        self.set_sat_float_to_int_enabled(false);
    }

    /// Sets saturating float-to-int conversions to `value` and leaves the other flags alone.
    pub fn set_sat_float_to_int_enabled(&mut self, value: bool)
        ensures
            final(self)@ == (FeatureFlags { sat_float_to_int: value, ..old(self)@ }),
    {
        self.sat_float_to_int = value;
    }

    /// Whether sign extension is switched on.
    pub fn sign_extension_enabled(&self) -> (b: bool)
        ensures
            b == self@.sign_extension,
    {
        self.sign_extension
    }

    /// Switches sign extension on and leaves the other flags alone.
    pub fn enable_sign_extension(&mut self)
        ensures
            final(self)@ == (FeatureFlags { sign_extension: true, ..old(self)@ }),
    {
        self.set_sign_extension_enabled(true);
    }

    /// Switches sign extension off and leaves the other flags alone.
    pub fn disable_sign_extension(&mut self)
        ensures
            final(self)@ == (FeatureFlags { sign_extension: false, ..old(self)@ }),
    {
        self.set_sign_extension_enabled(false);
    }

    /// Sets sign extension to `value` and leaves the other flags alone.
    pub fn set_sign_extension_enabled(&mut self, value: bool)
        ensures
            final(self)@ == (FeatureFlags { sign_extension: value, ..old(self)@ }),
    {
        self.sign_extension = value;
    }

    /// Whether SIMD is switched on.
    pub fn simd_enabled(&self) -> (b: bool)
        ensures
            b == self@.simd,
    {
        self.simd
    }

    /// Switches SIMD on and leaves the other flags alone.
    pub fn enable_simd(&mut self)
        ensures
            final(self)@ == (FeatureFlags { simd: true, ..old(self)@ }),
    {
        self.set_simd_enabled(true);
    }

    /// Switches SIMD off and leaves the other flags alone.
    pub fn disable_simd(&mut self)
        ensures
            final(self)@ == (FeatureFlags { simd: false, ..old(self)@ }),
    {
        self.set_simd_enabled(false);
    }

    /// Sets SIMD to `value` and leaves the other flags alone.
    pub fn set_simd_enabled(&mut self, value: bool)
        ensures
            final(self)@ == (FeatureFlags { simd: value, ..old(self)@ }),
    {
        self.simd = value;
    }

    /// Whether threads is switched on.
    pub fn threads_enabled(&self) -> (b: bool)
        ensures
            b == self@.threads,
    {
        self.threads
    }

    /// Switches threads on and leaves the other flags alone.
    pub fn enable_threads(&mut self)
        ensures
            final(self)@ == (FeatureFlags { threads: true, ..old(self)@ }),
    {
        self.set_threads_enabled(true);
    }

    /// Switches threads off and leaves the other flags alone.
    pub fn disable_threads(&mut self)
        ensures
            final(self)@ == (FeatureFlags { threads: false, ..old(self)@ }),
    {
        self.set_threads_enabled(false);
    }

    /// Sets threads to `value` and leaves the other flags alone.
    pub fn set_threads_enabled(&mut self, value: bool)
        ensures
            final(self)@ == (FeatureFlags { threads: value, ..old(self)@ }),
    {
        self.threads = value;
    }

    /// Whether multi-value is switched on.
    pub fn multi_value_enabled(&self) -> (b: bool)
        ensures
            b == self@.multi_value,
    {
        self.multi_value
    }

    /// Switches multi-value on and leaves the other flags alone.
    pub fn enable_multi_value(&mut self)
        ensures
            final(self)@ == (FeatureFlags { multi_value: true, ..old(self)@ }),
    {
        self.set_multi_value_enabled(true);
    }

    /// Switches multi-value off and leaves the other flags alone.
    pub fn disable_multi_value(&mut self)
        ensures
            final(self)@ == (FeatureFlags { multi_value: false, ..old(self)@ }),
    {
        self.set_multi_value_enabled(false);
    }

    /// Sets multi-value to `value` and leaves the other flags alone.
    pub fn set_multi_value_enabled(&mut self, value: bool)
        ensures
            final(self)@ == (FeatureFlags { multi_value: value, ..old(self)@ }),
    {
        self.multi_value = value;
    }

    /// Whether tail calls is switched on.
    pub fn tail_call_enabled(&self) -> (b: bool)
        ensures
            b == self@.tail_call,
    {
        self.tail_call
    }

    /// Switches tail calls on and leaves the other flags alone.
    pub fn enable_tail_call(&mut self)
        ensures
            final(self)@ == (FeatureFlags { tail_call: true, ..old(self)@ }),
    {
        self.set_tail_call_enabled(true);
    }

    /// Switches tail calls off and leaves the other flags alone.
    pub fn disable_tail_call(&mut self)
        ensures
            final(self)@ == (FeatureFlags { tail_call: false, ..old(self)@ }),
    {
        self.set_tail_call_enabled(false);
    }

    /// Sets tail calls to `value` and leaves the other flags alone.
    pub fn set_tail_call_enabled(&mut self, value: bool)
        ensures
            final(self)@ == (FeatureFlags { tail_call: value, ..old(self)@ }),
    {
        self.tail_call = value;
    }

    /// Whether bulk memory is switched on.
    pub fn bulk_memory_enabled(&self) -> (b: bool)
        ensures
            b == self@.bulk_memory,
    {
        self.bulk_memory
    }

    /// Switches bulk memory on and leaves the other flags alone.
    pub fn enable_bulk_memory(&mut self)
        ensures
            final(self)@ == (FeatureFlags { bulk_memory: true, ..old(self)@ }),
    {
        self.set_bulk_memory_enabled(true);
    }

    /// Switches bulk memory off and leaves the other flags alone.
    pub fn disable_bulk_memory(&mut self)
        ensures
            final(self)@ == (FeatureFlags { bulk_memory: false, ..old(self)@ }),
    {
        self.set_bulk_memory_enabled(false);
    }

    /// Sets bulk memory to `value` and leaves the other flags alone.
    pub fn set_bulk_memory_enabled(&mut self, value: bool)
        ensures
            final(self)@ == (FeatureFlags { bulk_memory: value, ..old(self)@ }),
    {
        self.bulk_memory = value;
    }
}

} // verus!
