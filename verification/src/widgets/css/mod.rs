pub mod dock;
