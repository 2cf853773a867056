# acid

An acid test for the Redox operating system. Each test is named on the command
line; without arguments the names are listed.

- `src/` is the verified library: what every test asks for, which answers it
  accepts, what it prints, and how it ends.
- `app/` is the program: it performs the requests on Redox and hands the answers
  to the library.
- `tests/` runs the library against answers of a kernel that does everything
  right, and of kernels that do not.
