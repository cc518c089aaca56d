# monty_python

The logic of the Python bindings of Monty, a sandboxed Python interpreter, with
its contracts proved by Verus.

The bindings let Python code compile a program, run it, or start it and resume
it from one external call to the next; keep a REPL session; and save all of
these as bytes. What they decide on the way is in `src/`: what is asked of the
interpreter and of Python and in which order, which exception goes before which,
who holds the state of an interrupted execution, and what its saved form is.

* `src/` is the verified library. It is generic over `host::Host`, the types of
  the values that pass between interpreter and Python; every outcome of outside
  work is an argument of the function that decides what follows from it. Only
  `postcard`, which writes the saved form, is called from here.
* `tests/` runs the library with the real `postcard`.
* `app/` is the side of Python: PyO3 objects, locks, the GIL, the loops that drive
  the interpreter from one decision to the next, and the Python module with its
  classes, which `monty_module!` declares for one interpreter.
